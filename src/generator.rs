use vstd::prelude::*;
use rand::rngs::ThreadRng;
use rand::Rng;
use rand::seq::SliceRandom;
use crate::charset::{CharClass, class_enabled, has_class, in_class};

verus! {

broadcast use {vstd::string::axiom_spec_iter, vstd::seq_lib::group_to_multiset_ensures};

/// rand's ThreadRng, the secure generator that every draw goes through; only carried.
#[verifier::external_type_specification]
#[verifier::external_body]
pub struct ExThreadRng(ThreadRng);

/// Relies on rand::rng: a handle to the thread-local, cryptographically secure generator.
#[verifier::external_body]
fn secure_rng() -> ThreadRng {
    rand::rng()
}

/// Relies on rand::Rng::random_range: a value drawn uniformly from `0..bound`, which
/// panics only on an empty range.
#[verifier::external_body]
fn random_index(rng: &mut ThreadRng, bound: usize) -> (r: usize)
    requires
        bound > 0,
    ensures
        r < bound,
{
    rng.random_range(0..bound)
}

/// Relies on rand::seq::SliceRandom::shuffle: the elements are permuted in place.
#[verifier::external_body]
fn shuffle_chars(rng: &mut ThreadRng, v: &mut Vec<char>)
    ensures
        final(v)@.to_multiset() == old(v)@.to_multiset(),
{
    v.shuffle(rng)
}

/// Relies on String's FromIterator<&char>: the characters are joined in order.
#[verifier::external_body]
fn string_from_chars(v: &Vec<char>) -> (r: String)
    ensures
        r@ == v@,
{
    v.iter().collect()
}

/// The characters a class contributes to generated passwords, in order. The special
/// alphabet has 32 symbols, matching the weight of that class.
pub open spec fn alphabet(class: CharClass) -> Seq<char> {
    match class {
        CharClass::Uppercase => "ABCDEFGHIJKLMNOPQRSTUVWXYZ"@,
        CharClass::Lowercase => "abcdefghijklmnopqrstuvwxyz"@,
        CharClass::Digit => "0123456789"@,
        CharClass::Special => "!@#$%^&*()-_=+[]{}|;:,.<>?~`'\"/\\"@,
    }
}

/// The enabled classes, in the order upper, lower, digit, special.
pub open spec fn enabled_classes(upper: bool, lower: bool, digits: bool, special: bool) -> Seq<CharClass> {
    (if upper { seq![CharClass::Uppercase] } else { Seq::empty() })
        + (if lower { seq![CharClass::Lowercase] } else { Seq::empty() })
        + (if digits { seq![CharClass::Digit] } else { Seq::empty() })
        + (if special { seq![CharClass::Special] } else { Seq::empty() })
}

/// The alphabets of `classes`, concatenated in order.
pub open spec fn pool_of(classes: Seq<CharClass>) -> Seq<char>
    decreases classes.len(),
{
    if classes.len() == 0 {
        Seq::empty()
    } else {
        pool_of(classes.drop_last()) + alphabet(classes.last())
    }
}

/// Some character of `s` is taken from `chars`.
pub open spec fn draws_from(s: Seq<char>, chars: Seq<char>) -> bool {
    exists|i: int| 0 <= i < s.len() && chars.contains(#[trigger] s[i])
}

/// The characters of one class's alphabet.
pub fn alphabet_chars(class: CharClass) -> (r: Vec<char>)
    ensures
        r@ == alphabet(class),
        r@.len() > 0,
{
    let s: &str = match class {
        CharClass::Uppercase => "ABCDEFGHIJKLMNOPQRSTUVWXYZ",
        CharClass::Lowercase => "abcdefghijklmnopqrstuvwxyz",
        CharClass::Digit => "0123456789",
        CharClass::Special => "!@#$%^&*()-_=+[]{}|;:,.<>?~`'\"/\\",
    };
    proof {
        reveal_strlit("ABCDEFGHIJKLMNOPQRSTUVWXYZ");
        reveal_strlit("abcdefghijklmnopqrstuvwxyz");
        reveal_strlit("0123456789");
        reveal_strlit("!@#$%^&*()-_=+[]{}|;:,.<>?~`'\"/\\");
    }
    let mut v: Vec<char> = Vec::new();
    for c in it: s.chars()
        invariant
            it.seq() == s@,
            v@ == s@.take(it.index() as int),
    {
        proof {
            assert(s@.take(it.index() as int + 1) == s@.take(it.index() as int).push(c));
        }
        v.push(c);
    }
    assert(s@.take(s@.len() as int) == s@);
    v
}

proof fn lemma_alphabet_nonempty(class: CharClass)
    ensures
        alphabet(class).len() > 0,
{
    reveal_strlit("ABCDEFGHIJKLMNOPQRSTUVWXYZ");
    reveal_strlit("abcdefghijklmnopqrstuvwxyz");
    reveal_strlit("0123456789");
    reveal_strlit("!@#$%^&*()-_=+[]{}|;:,.<>?~`'\"/\\");
}

/// Each alphabet holds only characters of its own class.
pub proof fn lemma_alphabet_in_class(class: CharClass, x: char)
    requires
        alphabet(class).contains(x),
    ensures
        in_class(class, x),
{
    reveal_strlit("ABCDEFGHIJKLMNOPQRSTUVWXYZ");
    reveal_strlit("abcdefghijklmnopqrstuvwxyz");
    reveal_strlit("0123456789");
    reveal_strlit("!@#$%^&*()-_=+[]{}|;:,.<>?~`'\"/\\");
    let j = choose|j: int| 0 <= j < alphabet(class).len() && alphabet(class)[j] == x;
}

/// Every character of an included class's alphabet is in the combined pool.
proof fn lemma_pool_contains(classes: Seq<CharClass>, p: int, x: char)
    requires
        0 <= p < classes.len(),
        alphabet(classes[p]).contains(x),
    ensures
        pool_of(classes).contains(x),
    decreases classes.len(),
{
    let front = pool_of(classes.drop_last());
    if p == classes.len() - 1 {
        let j = choose|j: int| 0 <= j < alphabet(classes[p]).len() && alphabet(classes[p])[j] == x;
        assert(pool_of(classes)[front.len() + j] == x);
    } else {
        assert(classes.drop_last()[p] == classes[p]);
        lemma_pool_contains(classes.drop_last(), p, x);
        let j = choose|j: int| 0 <= j < front.len() && front[j] == x;
        assert(pool_of(classes)[j] == x);
    }
}

proof fn lemma_pool_nonempty(classes: Seq<CharClass>)
    requires
        classes.len() > 0,
    ensures
        pool_of(classes).len() > 0,
{
    lemma_alphabet_nonempty(classes.last());
}

/// An enabled class has a place in the list of enabled classes.
proof fn lemma_enabled_position(class: CharClass, upper: bool, lower: bool, digits: bool, special: bool)
    requires
        class_enabled(class, upper, lower, digits, special),
    ensures
        exists|p: int|
            0 <= p < enabled_classes(upper, lower, digits, special).len()
                && #[trigger] enabled_classes(upper, lower, digits, special)[p] == class,
{
    let cls = enabled_classes(upper, lower, digits, special);
    let a: Seq<CharClass> = if upper { seq![CharClass::Uppercase] } else { Seq::empty() };
    let b: Seq<CharClass> = if lower { seq![CharClass::Lowercase] } else { Seq::empty() };
    let c: Seq<CharClass> = if digits { seq![CharClass::Digit] } else { Seq::empty() };
    let d: Seq<CharClass> = if special { seq![CharClass::Special] } else { Seq::empty() };
    match class {
        CharClass::Uppercase => { assert(cls[0] == class); },
        CharClass::Lowercase => { assert(cls[a.len() as int] == class); },
        CharClass::Digit => { assert(cls[(a.len() + b.len()) as int] == class); },
        CharClass::Special => { assert(cls[(a.len() + b.len() + c.len()) as int] == class); },
    }
}

fn enabled_class_list(upper: bool, lower: bool, digits: bool, special: bool) -> (r: Vec<CharClass>)
    ensures
        r@ == enabled_classes(upper, lower, digits, special),
{
    let mut r: Vec<CharClass> = Vec::new();
    if upper {
        r.push(CharClass::Uppercase);
    }
    if lower {
        r.push(CharClass::Lowercase);
    }
    if digits {
        r.push(CharClass::Digit);
    }
    if special {
        r.push(CharClass::Special);
    }
    assert(r@ =~= enabled_classes(upper, lower, digits, special));
    r
}

/// Builds a password of exactly `length` characters from the enabled classes.
///
/// One character of each enabled class is placed first (as long as room remains), the
/// rest is drawn from all enabled alphabets together, and the whole is shuffled.
pub fn generate_secure_password(
    length: usize,
    use_uppercase: bool,
    use_lowercase: bool,
    use_numbers: bool,
    use_special: bool,
) -> (r: String)
    requires
        use_uppercase || use_lowercase || use_numbers || use_special,
    ensures
        r@.len() == length,
        forall|i: int|
            0 <= i < r@.len() ==> pool_of(
                enabled_classes(use_uppercase, use_lowercase, use_numbers, use_special),
            ).contains(#[trigger] r@[i]),
        forall|p: int|
            0 <= p < enabled_classes(use_uppercase, use_lowercase, use_numbers, use_special).len()
                && p < length ==> draws_from(
                r@,
                alphabet(#[trigger] enabled_classes(use_uppercase, use_lowercase, use_numbers, use_special)[p]),
            ),
        enabled_classes(use_uppercase, use_lowercase, use_numbers, use_special).len() <= length
            ==> forall|class: CharClass|
            class_enabled(class, use_uppercase, use_lowercase, use_numbers, use_special)
                ==> draws_from(r@, #[trigger] alphabet(class)),
        enabled_classes(use_uppercase, use_lowercase, use_numbers, use_special).len() <= length
            ==> forall|class: CharClass|
            class_enabled(class, use_uppercase, use_lowercase, use_numbers, use_special)
                ==> #[trigger] has_class(r@, class),
{
    let ghost cls = enabled_classes(use_uppercase, use_lowercase, use_numbers, use_special);
    let classes = enabled_class_list(use_uppercase, use_lowercase, use_numbers, use_special);
    let mut rng = secure_rng();
    let mut chars: Vec<char> = Vec::new();
    let mut pool: Vec<char> = Vec::new();
    let mut i: usize = 0;
    while i < classes.len()
        invariant
            classes@ == cls,
            i <= cls.len(),
            pool@ == pool_of(cls.take(i as int)),
            chars@.len() == if i < length { i } else { length },
            forall|p: int| 0 <= p < chars@.len() ==> alphabet(cls[p]).contains(#[trigger] chars@[p]),
        decreases cls.len() - i,
    {
        let mut alph = alphabet_chars(classes[i]);
        if chars.len() < length {
            let idx = random_index(&mut rng, alph.len());
            chars.push(alph[idx]);
            assert(alphabet(cls[i as int])[idx as int] == chars@[i as int]);
        }
        pool.append(&mut alph);
        proof {
            let t = cls.take(i + 1);
            assert(t.drop_last() == cls.take(i as int));
            assert(t.last() == cls[i as int]);
        }
        i += 1;
    }
    assert(cls.take(cls.len() as int) == cls);
    let ghost guaranteed = chars.len();
    proof {
        lemma_pool_nonempty(cls);
        assert forall|j: int| 0 <= j < chars@.len() implies pool@.contains(#[trigger] chars@[j]) by {
            lemma_pool_contains(cls, j, chars@[j]);
        }
    }
    while chars.len() < length
        invariant
            pool@ == pool_of(cls),
            pool@.len() > 0,
            guaranteed <= chars@.len() <= length,
            guaranteed == if cls.len() < length { cls.len() } else { length as nat },
            forall|j: int| 0 <= j < chars@.len() ==> pool@.contains(#[trigger] chars@[j]),
            forall|p: int| 0 <= p < guaranteed ==> alphabet(cls[p]).contains(#[trigger] chars@[p]),
        decreases length - chars.len(),
    {
        let idx = random_index(&mut rng, pool.len());
        chars.push(pool[idx]);
        assert(pool@.contains(pool@[idx as int]));
    }
    let ghost before = chars@;
    shuffle_chars(&mut rng, &mut chars);
    let ghost after = chars@;
    proof {
        assert(after.to_multiset().len() == before.to_multiset().len());
        assert(after.len() == before.len());
        assert forall|j: int| 0 <= j < after.len() implies pool_of(cls).contains(#[trigger] after[j]) by {
            assert(after.contains(after[j]));
            assert(after.to_multiset().count(after[j]) > 0);
            assert(before.contains(after[j]));
            let k = choose|k: int| 0 <= k < before.len() && before[k] == after[j];
            assert(pool@.contains(before[k]));
        }
        assert forall|p: int| 0 <= p < cls.len() && p < length implies draws_from(after, alphabet(#[trigger] cls[p])) by {
            assert(before.contains(before[p]));
            assert(before.to_multiset().count(before[p]) > 0);
            assert(after.contains(before[p]));
            let k = choose|k: int| 0 <= k < after.len() && after[k] == before[p];
            assert(alphabet(cls[p]).contains(after[k]));
        }
        if cls.len() <= length {
            assert forall|class: CharClass| class_enabled(class, use_uppercase, use_lowercase, use_numbers, use_special)
                implies draws_from(after, #[trigger] alphabet(class)) by {
                lemma_enabled_position(class, use_uppercase, use_lowercase, use_numbers, use_special);
                let p = choose|p: int| 0 <= p < cls.len() && #[trigger] cls[p] == class;
                assert(draws_from(after, alphabet(cls[p])));
            }
            assert forall|class: CharClass| class_enabled(class, use_uppercase, use_lowercase, use_numbers, use_special)
                implies #[trigger] has_class(after, class) by {
                assert(draws_from(after, alphabet(class)));
                let k = choose|k: int| 0 <= k < after.len() && alphabet(class).contains(#[trigger] after[k]);
                lemma_alphabet_in_class(class, after[k]);
            }
        }
    }
    string_from_chars(&chars)
}

} // verus!
