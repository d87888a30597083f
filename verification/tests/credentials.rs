use cayopay_server::credentials::{Email, HashedPassword, RawPassword};

#[test]
fn test_debug_impl() {
    let email = Email::new("test@mail.com");
    let debug_str = email.redacted();
    assert_eq!(debug_str, "Email(***)");
}

#[test]
fn credentials_expose_what_they_hold() {
    assert_eq!(Email::new("a@b.c").expose(), "a@b.c");
    assert_eq!(Email::from("x@y.z".to_string()).expose(), "x@y.z");
    assert_eq!(RawPassword::new("secret").expose(), "secret");
    assert_eq!(HashedPassword::new("$argon2id$x").expose(), "$argon2id$x");
    assert_eq!(HashedPassword::default().expose(), "");
    assert_eq!(RawPassword::new("secret").redacted(), "RawPassword(***)");
    assert_eq!(HashedPassword::new("h").redacted(), "HashedPassword(***)");
}

#[test]
fn a_password_verifies_against_its_own_hash() {
    let raw = RawPassword::new("correct horse battery staple");
    let hashed = raw.hash().expect("hashing succeeds");
    assert_ne!(hashed.expose(), raw.expose());
    assert!(hashed.expose().starts_with("$argon2id$v=19$"));
    assert_eq!(hashed.verify(&raw), Ok(true));
    assert_eq!(hashed.verify(&RawPassword::new("wrong")), Ok(false));
}

#[test]
fn two_hashes_of_one_password_differ_by_salt() {
    let raw = RawPassword::new("password");
    let a = raw.hash().unwrap();
    let b = raw.hash().unwrap();
    assert_ne!(a.expose(), b.expose());
    assert_eq!(a.verify(&raw), Ok(true));
    assert_eq!(b.verify(&raw), Ok(true));
}

#[test]
fn a_malformed_hash_is_an_error() {
    let hashed = HashedPassword::new("not a phc string");
    assert!(hashed.verify(&RawPassword::new("password")).is_err());
}

#[test]
fn any_text_reads_as_an_email() {
    let e: Email = "whoever".parse().unwrap();
    assert_eq!(e.expose(), "whoever");
    assert!(e == Email::new("whoever"));
    assert_eq!(e.clone().expose(), "whoever");
}

#[test]
fn a_password_that_is_no_phc_string_never_verifies_against_itself() {
    let hashed = HashedPassword::new("not-a-hash");
    assert!(hashed.verify(&RawPassword::new("not-a-hash")).is_err());
    assert!(HashedPassword::new("").verify(&RawPassword::new("")).is_err());
}
