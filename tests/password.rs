use password_generator::{
    alphabet_chars, generate_secure_password, get_charset_size, validate_password, CharClass,
    EntropySearch, PasswordStrength, MAX_ATTEMPTS,
};

fn has_upper(s: &str) -> bool {
    s.chars().any(|c| c.is_ascii_uppercase())
}

fn has_lower(s: &str) -> bool {
    s.chars().any(|c| c.is_ascii_lowercase())
}

fn has_digit(s: &str) -> bool {
    s.chars().any(|c| c.is_ascii_digit())
}

fn has_special(s: &str) -> bool {
    s.chars().any(|c| !c.is_ascii_alphanumeric())
}

#[test]
fn charset_size_of_empty_is_zero() {
    assert_eq!(get_charset_size(""), 0);
}

#[test]
fn charset_size_sums_observed_classes() {
    assert_eq!(get_charset_size("ABC"), 26);
    assert_eq!(get_charset_size("abc"), 26);
    assert_eq!(get_charset_size("123"), 10);
    assert_eq!(get_charset_size("!!"), 32);
    assert_eq!(get_charset_size("aB"), 52);
    assert_eq!(get_charset_size("aB3"), 62);
    assert_eq!(get_charset_size("aB3#"), 94);
    assert_eq!(get_charset_size("1#"), 42);
}

#[test]
fn charset_size_treats_non_ascii_as_special() {
    assert_eq!(get_charset_size("é"), 32);
    assert_eq!(get_charset_size("aé"), 58);
}

#[test]
fn charset_size_ignores_what_was_requested() {
    let p = generate_secure_password(12, false, false, true, false);
    assert_eq!(get_charset_size(&p), 10);
}

#[test]
fn validation_passes_with_all_classes() {
    let v = validate_password("aB3#", true, true, true, true);
    assert!(v.is_valid);
    assert!(v.missing_types.is_empty());
}

#[test]
fn validation_reports_each_missing_class_in_order() {
    let v = validate_password("", true, true, true, true);
    assert!(!v.is_valid);
    assert_eq!(
        v.missing_types,
        vec!["uppercase", "lowercase", "number", "special character"]
    );
}

#[test]
fn validation_reports_missing_uppercase() {
    let v = validate_password("ab3#", true, true, true, true);
    assert!(!v.is_valid);
    assert_eq!(v.missing_types, vec!["uppercase"]);
}

#[test]
fn validation_reports_missing_lowercase() {
    let v = validate_password("AB3#", true, true, true, true);
    assert_eq!(v.missing_types, vec!["lowercase"]);
}

#[test]
fn validation_reports_missing_number() {
    let v = validate_password("aB#", true, true, true, true);
    assert_eq!(v.missing_types, vec!["number"]);
}

#[test]
fn validation_reports_missing_special() {
    let v = validate_password("aB3", true, true, true, true);
    assert_eq!(v.missing_types, vec!["special character"]);
}

#[test]
fn validation_ignores_unrequested_classes() {
    let v = validate_password("1234", false, false, true, false);
    assert!(v.is_valid);
    assert!(v.missing_types.is_empty());
    let v = validate_password("", false, false, false, false);
    assert!(v.is_valid);
    assert!(v.missing_types.is_empty());
}

#[test]
fn validation_counts_non_ascii_as_special() {
    let v = validate_password("aB3é", true, true, true, true);
    assert!(v.is_valid);
}

#[test]
fn alphabets_hold_their_classes() {
    let upper = alphabet_chars(CharClass::Uppercase);
    assert_eq!(upper.len(), 26);
    assert!(upper.iter().all(|c| c.is_ascii_uppercase()));
    let lower = alphabet_chars(CharClass::Lowercase);
    assert_eq!(lower.len(), 26);
    assert!(lower.iter().all(|c| c.is_ascii_lowercase()));
    let digits = alphabet_chars(CharClass::Digit);
    assert_eq!(digits.iter().collect::<String>(), "0123456789");
    let special = alphabet_chars(CharClass::Special);
    assert_eq!(special.len(), 32);
    assert!(special.iter().all(|c| c.is_ascii_punctuation()));
}

#[test]
fn generated_password_has_exact_length_and_every_class() {
    for length in [4usize, 5, 8, 32, 100] {
        let p = generate_secure_password(length, true, true, true, true);
        assert_eq!(p.chars().count(), length);
        assert!(has_upper(&p) && has_lower(&p) && has_digit(&p) && has_special(&p));
    }
}

#[test]
fn generated_password_uses_only_enabled_classes() {
    for _ in 0..20 {
        let p = generate_secure_password(16, false, true, false, true);
        assert_eq!(p.chars().count(), 16);
        assert!(!has_upper(&p) && !has_digit(&p));
        assert!(has_lower(&p) && has_special(&p));
    }
}

#[test]
fn generated_password_shorter_than_class_count() {
    let p = generate_secure_password(2, true, true, true, true);
    assert_eq!(p.chars().count(), 2);
    let p = generate_secure_password(0, true, true, true, true);
    assert_eq!(p, "");
}

#[test]
fn generated_password_is_shuffled() {
    // Without the shuffle the first character would always be the uppercase one.
    let mut first_not_upper = false;
    for _ in 0..200 {
        let p = generate_secure_password(4, true, true, true, true);
        if !p.chars().next().unwrap().is_ascii_uppercase() {
            first_not_upper = true;
        }
    }
    assert!(first_not_upper);
}

#[test]
fn scenario_eight_characters_all_classes() {
    let mut search = EntropySearch::new(8);
    let p = generate_secure_password(search.length, true, true, true, true);
    assert_eq!(p.len(), 8);
    assert!(has_upper(&p) && has_lower(&p) && has_digit(&p) && has_special(&p));
    search = search.record(true);
    assert!(search.finished);
    assert!(search.reached_min_entropy);
    assert_eq!(search.length, 8);
    assert!(validate_password(&p, true, true, true, true).is_valid);
}

#[test]
fn scenario_four_digits_only() {
    let p = generate_secure_password(4, false, false, true, false);
    assert_eq!(p.len(), 4);
    assert!(p.chars().all(|c| c.is_ascii_digit()));
    let v = validate_password(&p, false, false, true, false);
    assert!(v.is_valid);
    assert!(v.missing_types.is_empty());
}

#[test]
fn scenario_unreachable_target_exhausts_attempts() {
    let mut search = EntropySearch::new(4);
    let mut lengths = Vec::new();
    while !search.finished {
        lengths.push(search.length);
        search = search.record(false);
    }
    assert_eq!(lengths, vec![4, 6, 8, 10, 12, 14, 16, 18, 20, 22]);
    assert_eq!(search.failed_attempts, MAX_ATTEMPTS);
    assert_eq!(search.length, 22);
    assert!(!search.reached_min_entropy);
    let p = generate_secure_password(search.length, true, true, true, true);
    assert_eq!(p.len(), 22);
}

#[test]
fn search_stops_on_later_success() {
    let search = EntropySearch::new(10).record(false).record(false).record(true);
    assert!(search.finished);
    assert!(search.reached_min_entropy);
    assert_eq!(search.length, 14);
    assert_eq!(search.failed_attempts, 2);
    assert_eq!(search.requested_length, 10);
}

#[test]
fn strength_boundaries() {
    assert_eq!(PasswordStrength::from_entropy(45), PasswordStrength::Weak);
    assert_eq!(PasswordStrength::from_entropy(46), PasswordStrength::Moderate);
    assert_eq!(PasswordStrength::from_entropy(45.9f64 as usize), PasswordStrength::Weak);
    assert_eq!(PasswordStrength::from_entropy(0), PasswordStrength::Weak);
    assert_eq!(PasswordStrength::from_entropy(60), PasswordStrength::Moderate);
    assert_eq!(PasswordStrength::from_entropy(61), PasswordStrength::Strong);
    assert_eq!(PasswordStrength::from_entropy(80), PasswordStrength::Strong);
    assert_eq!(PasswordStrength::from_entropy(81), PasswordStrength::VeryStrong);
    assert_eq!(PasswordStrength::from_entropy(100), PasswordStrength::VeryStrong);
    assert_eq!(PasswordStrength::from_entropy(101), PasswordStrength::Extreme);
    assert_eq!(PasswordStrength::from_entropy(usize::MAX), PasswordStrength::Extreme);
}

#[test]
fn strength_is_monotonic_and_repeatable() {
    let mut previous = PasswordStrength::from_entropy(0);
    for bits in 0..200usize {
        let tier = PasswordStrength::from_entropy(bits);
        assert!(tier >= previous);
        assert_eq!(tier, PasswordStrength::from_entropy(bits));
        assert_eq!(tier.description(), PasswordStrength::from_entropy(bits).description());
        previous = tier;
    }
}

#[test]
fn strength_min_entropy_table() {
    assert_eq!(PasswordStrength::Weak.min_entropy(), 30);
    assert_eq!(PasswordStrength::Moderate.min_entropy(), 50);
    assert_eq!(PasswordStrength::Strong.min_entropy(), 70);
    assert_eq!(PasswordStrength::VeryStrong.min_entropy(), 90);
    assert_eq!(PasswordStrength::Extreme.min_entropy(), 120);
}

#[test]
fn strength_descriptions() {
    assert_eq!(PasswordStrength::Weak.description(), "Weak - easily crackable");
    assert_eq!(
        PasswordStrength::Moderate.description(),
        "Moderate - acceptable for non-critical accounts"
    );
    assert_eq!(PasswordStrength::Strong.description(), "Strong - good for most purposes");
    assert_eq!(
        PasswordStrength::VeryStrong.description(),
        "Very strong - suitable for sensitive accounts"
    );
    assert_eq!(
        PasswordStrength::Extreme.description(),
        "Extremely strong - suitable for high-security applications"
    );
}
