use os_crypt::kdf::derive_key;
use os_crypt::params::{ITERATIONS, KEY_LENGTH, SALT};

#[test]
fn parameters_are_pinned() {
    assert_eq!(&SALT, b"saltysalt");
    assert_eq!(ITERATIONS, 1003);
    assert_eq!(KEY_LENGTH, 16);
}

#[test]
fn derive_key_known_vector() {
    let key = derive_key("test");
    assert_eq!(
        key,
        [99, 0, 156, 20, 34, 130, 107, 177, 225, 86, 199, 161, 164, 245, 181, 168]
    );
    assert_eq!(hex::encode(key), "63009c1422826bb1e156c7a1a4f5b5a8");
}

#[test]
fn derive_key_is_deterministic() {
    assert_eq!(derive_key("correct horse"), derive_key("correct horse"));
    assert_eq!(derive_key("peanuts").len(), 16);
    assert_eq!(hex::encode(derive_key("peanuts")), "d9a09d499b4e1b7461f28e67972c6dbd");
}

#[test]
fn derive_key_of_empty_password() {
    assert_eq!(hex::encode(derive_key("")), "1cbee826d6938327ae9043f63bfc26d7");
}

#[test]
fn derive_key_depends_on_password() {
    assert_ne!(derive_key("test"), derive_key("Test"));
}
