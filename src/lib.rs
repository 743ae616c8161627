pub mod charset;
pub mod generator;
pub mod search;
pub mod strength;
pub mod validation;

pub use charset::{get_charset_size, CharClass};
pub use generator::{alphabet_chars, generate_secure_password};
pub use search::{EntropySearch, LENGTH_STEP, MAX_ATTEMPTS};
pub use strength::PasswordStrength;
pub use validation::{validate_password, PasswordValidation};
