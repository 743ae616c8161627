use vstd::prelude::*;

verus! {

broadcast use vstd::string::axiom_spec_iter;

/// One of the four character classes a password can draw from.
#[derive(Clone, Copy, Debug, PartialEq, Eq, Structural)]
pub enum CharClass {
    Uppercase,
    Lowercase,
    Digit,
    Special,
}

pub open spec fn is_upper(c: char) -> bool {
    'A' <= c && c <= 'Z'
}

pub open spec fn is_lower(c: char) -> bool {
    'a' <= c && c <= 'z'
}

pub open spec fn is_digit(c: char) -> bool {
    '0' <= c && c <= '9'
}

/// Anything that is not an ASCII letter or digit counts as special.
pub open spec fn is_special(c: char) -> bool {
    !is_upper(c) && !is_lower(c) && !is_digit(c)
}

pub open spec fn in_class(class: CharClass, c: char) -> bool {
    match class {
        CharClass::Uppercase => is_upper(c),
        CharClass::Lowercase => is_lower(c),
        CharClass::Digit => is_digit(c),
        CharClass::Special => is_special(c),
    }
}

/// Whether a class is switched on by the four per-class flags.
pub open spec fn class_enabled(class: CharClass, upper: bool, lower: bool, digits: bool, special: bool) -> bool {
    match class {
        CharClass::Uppercase => upper,
        CharClass::Lowercase => lower,
        CharClass::Digit => digits,
        CharClass::Special => special,
    }
}

/// Some character of `s` belongs to `class`.
pub open spec fn has_class(s: Seq<char>, class: CharClass) -> bool {
    exists|i: int| 0 <= i < s.len() && in_class(class, #[trigger] s[i])
}

/// The alphabet size a class contributes to an entropy estimate.
pub open spec fn class_weight(class: CharClass) -> nat {
    match class {
        CharClass::Uppercase => 26,
        CharClass::Lowercase => 26,
        CharClass::Digit => 10,
        CharClass::Special => 32,
    }
}

pub open spec fn weight_if_present(s: Seq<char>, class: CharClass) -> nat {
    if has_class(s, class) {
        class_weight(class)
    } else {
        0
    }
}

/// Sum of the weights of the classes that occur in `s`.
pub open spec fn observed_weight(s: Seq<char>) -> nat {
    weight_if_present(s, CharClass::Uppercase) + weight_if_present(s, CharClass::Lowercase)
        + weight_if_present(s, CharClass::Digit) + weight_if_present(s, CharClass::Special)
}

/// Appending a character adds exactly that character's class.
pub proof fn lemma_has_class_push(s: Seq<char>, c: char)
    ensures
        forall|class: CharClass| #[trigger] has_class(s.push(c), class)
            == (has_class(s, class) || in_class(class, c)),
{
    assert forall|class: CharClass| #[trigger] has_class(s.push(c), class)
        == (has_class(s, class) || in_class(class, c)) by {
        let t = s.push(c);
        if has_class(s, class) {
            let i = choose|i: int| 0 <= i < s.len() && in_class(class, #[trigger] s[i]);
            assert(t[i] == s[i]);
        }
        if in_class(class, c) {
            assert(t[s.len() as int] == c);
        }
        if has_class(t, class) {
            let i = choose|i: int| 0 <= i < t.len() && in_class(class, #[trigger] t[i]);
            if i < s.len() {
                assert(t[i] == s[i]);
            }
        }
    }
}

pub fn is_upper_char(c: char) -> (r: bool)
    ensures
        r == is_upper(c),
{
    'A' <= c && c <= 'Z'
}

pub fn is_lower_char(c: char) -> (r: bool)
    ensures
        r == is_lower(c),
{
    'a' <= c && c <= 'z'
}

pub fn is_digit_char(c: char) -> (r: bool)
    ensures
        r == is_digit(c),
{
    '0' <= c && c <= '9'
}

/// Alphabet size inferred from the classes actually present in `password`.
pub fn get_charset_size(password: &str) -> (r: usize)
    ensures
        r == observed_weight(password@),
{
    let mut has_upper = false;
    let mut has_lower = false;
    let mut has_digit = false;
    let mut has_special = false;
    for c in it: password.chars()
        invariant
            it.seq() == password@,
            has_upper == has_class(password@.take(it.index() as int), CharClass::Uppercase),
            has_lower == has_class(password@.take(it.index() as int), CharClass::Lowercase),
            has_digit == has_class(password@.take(it.index() as int), CharClass::Digit),
            has_special == has_class(password@.take(it.index() as int), CharClass::Special),
    {
        proof {
            let i = it.index() as int;
            assert(password@.take(i + 1) == password@.take(i).push(c));
            lemma_has_class_push(password@.take(i), c);
        }
        if is_upper_char(c) {
            has_upper = true;
        } else if is_lower_char(c) {
            has_lower = true;
        } else if is_digit_char(c) {
            has_digit = true;
        } else {
            has_special = true;
        }
    }
    assert(password@.take(password@.len() as int) == password@);
    let mut size: usize = 0;
    if has_upper {
        size += 26;
    }
    if has_lower {
        size += 26;
    }
    if has_digit {
        size += 10;
    }
    if has_special {
        size += 32;
    }
    size
}

} // verus!
