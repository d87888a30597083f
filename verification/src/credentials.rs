//! Credential values: e-mail addresses and passwords, kept out of debug output.
use argon2::password_hash::rand_core::OsRng;
use argon2::password_hash::{PasswordHasher, PasswordVerifier, SaltString};
use vstd::prelude::*;

verus! {

/// The error type of the `password-hash` crate that `argon2` re-exports.
#[verifier::external_type_specification]
#[verifier::external_body]
pub struct ExPasswordHashError(argon2::password_hash::Error);

/// What `Argon2::default()` decides when `password` is checked against the PHC string
/// `hash`: `None` where `PasswordHash::new` rejects the string, otherwise whether
/// `verify_password` accepts the password.
pub uninterp spec fn argon2_verdict(hash: Seq<char>, password: Seq<char>) -> Option<bool>;

/// Whether `argon2::password_hash::PasswordHash::new` reads `hash` as a PHC string.
pub uninterp spec fn phc_parses(hash: Seq<char>) -> bool;

/// `hash` is a PHC string against which `password` verifies.
pub open spec fn hashes_to(password: Seq<char>, hash: Seq<char>) -> bool {
    argon2_verdict(hash, password) == Some(true)
}

/// `text` cannot be a PHC string: it is empty or does not start with `$`.
pub open spec fn not_phc(text: Seq<char>) -> bool {
    text.len() == 0 || text[0] != '$'
}

/// The start of every PHC string that `Argon2::default()` produces: the `argon2id`
/// algorithm, then version 19.
pub open spec fn argon2id_prefix() -> Seq<char> {
    seq!['$', 'a', 'r', 'g', 'o', 'n', '2', 'i', 'd', '$', 'v', '=', '1', '9', '$']
}

/// Checks `password` against the PHC string `hash` with `argon2`: `PasswordHash::new(hash)`,
/// then `Argon2::default().verify_password(password bytes, &parsed).is_ok()`.
/// Claimed: the outcome is the named verdict of the two strings; an error exactly when the
/// string does not parse. The verdict depends on the two strings alone (the salt and the
/// parameters are read from the hash). Also claimed: the call fails exactly when
/// `PasswordHash::new` rejects the hash, whatever the password, and, as
/// `PasswordHash::parse` shows, a string that is empty or does not start with `$` is
/// rejected.
#[verifier::external_body]
fn argon2_verify(hash: &str, password: &str) -> (r: Result<bool, argon2::password_hash::Error>)
    ensures
        match r {
            Ok(b) => argon2_verdict(hash@, password@) == Some(b),
            Err(_) => argon2_verdict(hash@, password@) is None,
        },
        not_phc(hash@) ==> r is Err,
        r is Err <==> !phc_parses(hash@),
{
    let parsed = argon2::password_hash::PasswordHash::new(hash)?;
    Ok(argon2::Argon2::default().verify_password(password.as_bytes(), &parsed).is_ok())
}

/// The longest password, in UTF-8 bytes, that Argon2 hashes (`argon2::MAX_PWD_LEN`).
pub open spec fn max_password_bytes() -> nat {
    0xFFFF_FFFF
}

/// Hashes `password` with `Argon2::default().hash_password` under a salt from
/// `SaltString::generate(&mut OsRng)`, and renders the PHC string with `to_string`.
/// The string depends on the random salt, so it gets no name. Claimed: the password
/// verifies against the string it was hashed to, as the password-hash documentation
/// promises; and hashing fails exactly when the password is longer than
/// `argon2::MAX_PWD_LEN` bytes, as the argon2 source shows (with the default
/// parameters, the 16-byte generated salt and the 32-byte output, `verify_inputs`
/// rejecting such a password is the only error path that `hash_password` can reach).
/// Also claimed, as the `Display` of `PasswordHash` shows for the default algorithm
/// (`argon2id`) and version (19): the string starts with `$argon2id$v=19$`; and, as
/// the documentation of `PasswordHashString` (built from the same `to_string`) says,
/// the string parses as a PHC string.
#[verifier::external_body]
fn argon2_hash(password: &str) -> (r: Result<String, argon2::password_hash::Error>)
    ensures
        r matches Ok(h) ==> hashes_to(password@, h@),
        r matches Ok(h) ==> argon2id_prefix().is_prefix_of(h@),
        r matches Ok(h) ==> phc_parses(h@),
        r is Ok <==> vstd::utf8::encode_utf8(password@).len() <= max_password_bytes(),
{
    let salt = SaltString::generate(&mut OsRng);
    let hash = argon2::Argon2::default().hash_password(password.as_bytes(), &salt)?;
    Ok(hash.to_string())
}

/// The text of a password hashing error, as its `Display` (`to_string`) renders it.
/// Nothing is claimed of the text.
#[verifier::external_body]
pub(crate) fn hash_error_text(e: &argon2::password_hash::Error) -> (text: String) {
    e.to_string()
}

/// An e-mail address. Its debug text never shows the address.
#[derive(PartialEq, Eq, Hash)]
pub struct Email(String);

impl View for Email {
    type V = Seq<char>;

    closed spec fn view(&self) -> Seq<char> {
        self.0@
    }
}

impl Email {
    pub fn new(email: &str) -> (e: Self)
        ensures
            e@ == email@,
    {
        Email(String::from_str(email))
    }

    pub fn expose(&self) -> (s: &str)
        ensures
            s@ == self@,
    {
        self.0.as_str()
    }

    /// The text that stands for the address in debug output: `Email(***)`.
    pub fn redacted(&self) -> (s: &'static str)
        ensures
            s@ == "Email(***)"@,
    {
        "Email(***)"
    }
}

impl Clone for Email {
    fn clone(&self) -> (e: Self)
        ensures
            e@ == self@,
    {
        Email(self.0.clone())
    }
}

impl core::str::FromStr for Email {
    type Err = String;

    fn from_str(s: &str) -> (r: Result<Self, String>)
        ensures
            r matches Ok(e) && e@ == s@,
    {
        Ok(Email::new(s))
    }
}

impl From<String> for Email {
    fn from(value: String) -> (e: Self)
        ensures
            e@ == value@,
    {
        Email(value)
    }
}

impl vstd::std_specs::convert::FromSpecImpl<String> for Email {
    open spec fn obeys_from_spec() -> bool {
        true
    }

    closed spec fn from_spec(v: String) -> Self {
        Email(v)
    }
}

/// A password as the user typed it. Its debug text never shows it.
pub struct RawPassword(String);

impl View for RawPassword {
    type V = Seq<char>;

    closed spec fn view(&self) -> Seq<char> {
        self.0@
    }
}

impl RawPassword {
    pub fn new(password: &str) -> (p: Self)
        ensures
            p@ == password@,
    {
        RawPassword(String::from_str(password))
    }

    pub fn expose(&self) -> (s: &str)
        ensures
            s@ == self@,
    {
        self.0.as_str()
    }

    /// Hashes the password with Argon2 under a fresh random salt. It succeeds unless the
    /// password is longer than Argon2 accepts, and the password verifies against every
    /// hash that this returns. Every hash starts with `$argon2id$v=19$`, so it differs
    /// from any password that does not start so.
    pub fn hash(&self) -> (r: Result<HashedPassword, argon2::password_hash::Error>)
        ensures
            r matches Ok(h) ==> hashes_to(self@, h@),
            r matches Ok(h) ==> argon2id_prefix().is_prefix_of(h@),
            r matches Ok(h) ==> phc_parses(h@),
            r matches Ok(h) ==> (argon2id_prefix().is_prefix_of(self@) || h@ != self@),
            r is Ok <==> vstd::utf8::encode_utf8(self@).len() <= max_password_bytes(),
    {
        match argon2_hash(self.0.as_str()) {
            Ok(h) => Ok(HashedPassword(h)),
            Err(e) => Err(e),
        }
    }

    /// The text that stands for the password in debug output: `RawPassword(***)`.
    pub fn redacted(&self) -> (s: &'static str)
        ensures
            s@ == "RawPassword(***)"@,
    {
        "RawPassword(***)"
    }
}

impl Clone for RawPassword {
    fn clone(&self) -> (p: Self)
        ensures
            p@ == self@,
    {
        RawPassword(self.0.clone())
    }
}

impl From<String> for RawPassword {
    fn from(value: String) -> (p: Self)
        ensures
            p@ == value@,
    {
        RawPassword(value)
    }
}

impl vstd::std_specs::convert::FromSpecImpl<String> for RawPassword {
    open spec fn obeys_from_spec() -> bool {
        true
    }

    closed spec fn from_spec(v: String) -> Self {
        RawPassword(v)
    }
}

/// An Argon2 password hash in PHC string form. Its debug text never shows it.
pub struct HashedPassword(String);

impl View for HashedPassword {
    type V = Seq<char>;

    closed spec fn view(&self) -> Seq<char> {
        self.0@
    }
}

impl HashedPassword {
    pub fn new(hash: &str) -> (h: Self)
        ensures
            h@ == hash@,
    {
        HashedPassword(String::from_str(hash))
    }

    pub fn expose(&self) -> (s: &str)
        ensures
            s@ == self@,
    {
        self.0.as_str()
    }

    /// Checks `password` against this hash. An error exactly when the hash is not a PHC
    /// string that Argon2 reads, whatever the password (among them every string that is
    /// empty or does not start with `$`); otherwise whether the password matches. A password always matches a hash
    /// that `RawPassword::hash` made of it.
    pub fn verify(&self, password: &RawPassword) -> (r: Result<bool, argon2::password_hash::Error>)
        ensures
            match r {
                Ok(b) => argon2_verdict(self@, password@) == Some(b),
                Err(_) => argon2_verdict(self@, password@) is None,
            },
            hashes_to(password@, self@) ==> r == Ok::<bool, argon2::password_hash::Error>(true),
            not_phc(self@) ==> r is Err,
            r is Err <==> !phc_parses(self@),
    {
        argon2_verify(self.0.as_str(), password.0.as_str())
    }

    /// The text that stands for the hash in debug output: `HashedPassword(***)`.
    pub fn redacted(&self) -> (s: &'static str)
        ensures
            s@ == "HashedPassword(***)"@,
    {
        "HashedPassword(***)"
    }
}

impl Clone for HashedPassword {
    fn clone(&self) -> (h: Self)
        ensures
            h@ == self@,
    {
        HashedPassword(self.0.clone())
    }
}

impl Default for HashedPassword {
    fn default() -> (h: Self)
        ensures
            h@ == Seq::<char>::empty(),
    {
        HashedPassword(String::new())
    }
}

impl From<String> for HashedPassword {
    fn from(value: String) -> (h: Self)
        ensures
            h@ == value@,
    {
        HashedPassword(value)
    }
}

impl vstd::std_specs::convert::FromSpecImpl<String> for HashedPassword {
    open spec fn obeys_from_spec() -> bool {
        true
    }

    closed spec fn from_spec(v: String) -> Self {
        HashedPassword(v)
    }
}

} // verus!
