use vstd::prelude::*;
use crate::charset::{CharClass, class_enabled, has_class, is_upper_char, is_lower_char, is_digit_char, lemma_has_class_push};

verus! {

broadcast use vstd::string::axiom_spec_iter;

/// Outcome of checking a password against the requested classes.
pub struct PasswordValidation {
    pub is_valid: bool,
    pub missing_types: Vec<String>,
}

/// The class is requested and the password lacks it.
pub open spec fn is_missing(s: Seq<char>, requested: bool, class: CharClass) -> bool {
    requested && !has_class(s, class)
}

pub open spec fn class_name(class: CharClass) -> Seq<char> {
    match class {
        CharClass::Uppercase => "uppercase"@,
        CharClass::Lowercase => "lowercase"@,
        CharClass::Digit => "number"@,
        CharClass::Special => "special character"@,
    }
}

pub open spec fn name_if_missing(s: Seq<char>, requested: bool, class: CharClass) -> Seq<Seq<char>> {
    if is_missing(s, requested, class) {
        seq![class_name(class)]
    } else {
        Seq::empty()
    }
}

/// Names of the requested but absent classes, in the order upper, lower, digit, special.
pub open spec fn missing_names(s: Seq<char>, upper: bool, lower: bool, digits: bool, special: bool) -> Seq<Seq<char>> {
    name_if_missing(s, upper, CharClass::Uppercase) + name_if_missing(s, lower, CharClass::Lowercase)
        + name_if_missing(s, digits, CharClass::Digit) + name_if_missing(s, special, CharClass::Special)
}

pub open spec fn all_present(s: Seq<char>, upper: bool, lower: bool, digits: bool, special: bool) -> bool {
    &&& !is_missing(s, upper, CharClass::Uppercase)
    &&& !is_missing(s, lower, CharClass::Lowercase)
    &&& !is_missing(s, digits, CharClass::Digit)
    &&& !is_missing(s, special, CharClass::Special)
}

/// A class is reported missing exactly when it was requested and the password has no
/// character of it; a class that was not requested is never reported.
pub proof fn lemma_missing_iff_requested_and_absent(
    s: Seq<char>,
    upper: bool,
    lower: bool,
    digits: bool,
    special: bool,
    class: CharClass,
)
    ensures
        missing_names(s, upper, lower, digits, special).contains(class_name(class))
            <==> is_missing(s, class_enabled(class, upper, lower, digits, special), class),
{
    reveal_strlit("uppercase");
    reveal_strlit("lowercase");
    reveal_strlit("number");
    reveal_strlit("special character");
    let names = missing_names(s, upper, lower, digits, special);
    let a = name_if_missing(s, upper, CharClass::Uppercase);
    let b = name_if_missing(s, lower, CharClass::Lowercase);
    let c = name_if_missing(s, digits, CharClass::Digit);
    let d = name_if_missing(s, special, CharClass::Special);
    if is_missing(s, class_enabled(class, upper, lower, digits, special), class) {
        match class {
            CharClass::Uppercase => { assert(names[0] == class_name(class)); },
            CharClass::Lowercase => { assert(names[a.len() as int] == class_name(class)); },
            CharClass::Digit => { assert(names[(a.len() + b.len()) as int] == class_name(class)); },
            CharClass::Special => { assert(names[(a.len() + b.len() + c.len()) as int] == class_name(class)); },
        }
    }
    if names.contains(class_name(class)) {
        let j = choose|j: int| 0 <= j < names.len() && names[j] == class_name(class);
        let k = if j < a.len() {
            CharClass::Uppercase
        } else if j < a.len() + b.len() {
            CharClass::Lowercase
        } else if j < a.len() + b.len() + c.len() {
            CharClass::Digit
        } else {
            CharClass::Special
        };
        assert(names[j] == class_name(k));
        assert(is_missing(s, class_enabled(k, upper, lower, digits, special), k));
        assert(class_name(k)[0] == class_name(class)[0]);
    }
}

/// A password that has a character of every enabled class passes validation against
/// those same classes.
pub proof fn lemma_covering_password_is_valid(s: Seq<char>, upper: bool, lower: bool, digits: bool, special: bool)
    requires
        forall|class: CharClass|
            class_enabled(class, upper, lower, digits, special) ==> #[trigger] has_class(s, class),
    ensures
        all_present(s, upper, lower, digits, special),
        missing_names(s, upper, lower, digits, special) == Seq::<Seq<char>>::empty(),
{
    assert(class_enabled(CharClass::Uppercase, upper, lower, digits, special) ==> has_class(s, CharClass::Uppercase));
    assert(class_enabled(CharClass::Lowercase, upper, lower, digits, special) ==> has_class(s, CharClass::Lowercase));
    assert(class_enabled(CharClass::Digit, upper, lower, digits, special) ==> has_class(s, CharClass::Digit));
    assert(class_enabled(CharClass::Special, upper, lower, digits, special) ==> has_class(s, CharClass::Special));
    assert(missing_names(s, upper, lower, digits, special) =~= Seq::<Seq<char>>::empty());
}

fn push_if_missing(missing: &mut Vec<String>, absent: bool, name: &str)
    ensures
        final(missing)@.map_values(|t: String| t@) == old(missing)@.map_values(|t: String| t@) + (
        if absent {
            seq![name@]
        } else {
            Seq::empty()
        }),
{
    let ghost before = missing@;
    if absent {
        missing.push(name.to_owned());
        assert(missing@.map_values(|t: String| t@) =~= before.map_values(|t: String| t@) + seq![name@]);
    } else {
        assert(missing@.map_values(|t: String| t@) =~= before.map_values(|t: String| t@) + Seq::empty());
    }
}

/// Checks that every requested class occurs in `password`; classes not requested are
/// never reported.
pub fn validate_password(
    password: &str,
    check_uppercase: bool,
    check_lowercase: bool,
    check_numbers: bool,
    check_special: bool,
) -> (r: PasswordValidation)
    ensures
        r.is_valid == all_present(password@, check_uppercase, check_lowercase, check_numbers, check_special),
        r.missing_types@.map_values(|t: String| t@)
            == missing_names(password@, check_uppercase, check_lowercase, check_numbers, check_special),
        r.is_valid <==> r.missing_types@.len() == 0,
{
    let mut has_upper = false;
    let mut has_lower = false;
    let mut has_digit = false;
    let mut has_special = false;
    for c in it: password.chars()
        invariant
            it.seq() == password@,
            has_upper == has_class(password@.take(it.index() as int), CharClass::Uppercase),
            has_lower == has_class(password@.take(it.index() as int), CharClass::Lowercase),
            has_digit == has_class(password@.take(it.index() as int), CharClass::Digit),
            has_special == has_class(password@.take(it.index() as int), CharClass::Special),
    {
        proof {
            let i = it.index() as int;
            assert(password@.take(i + 1) == password@.take(i).push(c));
            lemma_has_class_push(password@.take(i), c);
        }
        let u = is_upper_char(c);
        let l = is_lower_char(c);
        let d = is_digit_char(c);
        has_upper = has_upper || u;
        has_lower = has_lower || l;
        has_digit = has_digit || d;
        has_special = has_special || !(u || l || d);
    }
    assert(password@.take(password@.len() as int) == password@);
    let mut missing: Vec<String> = Vec::new();
    proof {
        reveal_strlit("uppercase");
        reveal_strlit("lowercase");
        reveal_strlit("number");
        reveal_strlit("special character");
    }
    assert(missing@.map_values(|t: String| t@) =~= Seq::<Seq<char>>::empty());
    push_if_missing(&mut missing, check_uppercase && !has_upper, "uppercase");
    push_if_missing(&mut missing, check_lowercase && !has_lower, "lowercase");
    push_if_missing(&mut missing, check_numbers && !has_digit, "number");
    push_if_missing(&mut missing, check_special && !has_special, "special character");
    let is_valid = !(check_uppercase && !has_upper) && !(check_lowercase && !has_lower)
        && !(check_numbers && !has_digit) && !(check_special && !has_special);
    let ghost names = missing_names(password@, check_uppercase, check_lowercase, check_numbers, check_special);
    assert(missing@.map_values(|t: String| t@) =~= names);
    PasswordValidation { is_valid, missing_types: missing }
}

} // verus!
