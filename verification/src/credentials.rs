//! Passwords and e-mail addresses of accounts.
use vstd::prelude::*;

verus! {

/// Whether `password_auth::verify_password(password, hash)` accepts: the
/// hash parses as a PHC string and `password` matches it. A deterministic
/// function of the two texts.
pub uninterp spec fn password_verifies(password: Seq<char>, hash: Seq<char>) -> bool;

/// `str::to_lowercase`: the Unicode lower-case mapping of a text.
pub uninterp spec fn lowercase(text: Seq<char>) -> Seq<char>;

/// Passwords that can be hashed: Argon2 takes at most `u32::MAX` bytes.
pub open spec fn hashable(password: Seq<char>) -> bool {
    vstd::utf8::encode_utf8(password).len() <= 0xffff_ffff
}

/// The start of every hash that `generate_hash` makes: Argon2id, version 19,
/// with the default cost parameters.
pub open spec fn argon2id_hash_prefix() -> Seq<char> {
    "$argon2id$v=19$m=19456,t=2,p=1$"@
}

/// A PHC string as `generate_hash` makes it: the prefix above, then 22
/// characters of B64 salt (16 bytes), `$`, and 43 characters of B64 hash
/// output (32 bytes).
pub open spec fn is_argon2id_phc(hash: Seq<char>) -> bool {
    &&& hash.len() == argon2id_hash_prefix().len() + 22 + 1 + 43
    &&& hash.take(argon2id_hash_prefix().len() as int) == argon2id_hash_prefix()
}

/// Whether a password can be hashed (its UTF-8 encoding has at most
/// `u32::MAX` bytes); hashing any other panics.
pub fn password_is_hashable(password: &str) -> (hashable_: bool)
    ensures
        hashable_ == hashable(password@),
{
    let bytes: usize = utf8_len(password);
    bytes as u64 <= 0xffff_ffffu64
}

/// Calls `str::len` of std: the length of the text's UTF-8 encoding, which
/// as the size of an allocation always fits in `usize`.
#[verifier::external_body]
fn utf8_len(text: &str) -> (bytes: usize)
    ensures
        bytes as nat == vstd::utf8::encode_utf8(text@).len(),
{
    text.len()
}

/// Calls `password_auth::generate_hash`: a hash with a fresh random salt, so
/// nothing fixes which hash comes back; the crate documents and tests that
/// `verify_password` accepts the password against it, and its source
/// (`Argon2::default`, `SaltString::generate`, the PHC `Display`) writes it
/// in the form `is_argon2id_phc` describes. The crate panics when
/// hashing fails, which for Argon2 means a password longer than `u32::MAX`
/// bytes; the `requires` leaves those out.
#[verifier::external_body]
pub fn generate_hash(password: &str) -> (hash: String)
    requires
        hashable(password@),
    ensures
        password_verifies(password@, hash@),
        is_argon2id_phc(hash@),
{
    password_auth::generate_hash(password)
}

/// Calls `password_auth::verify_password` and reports whether it returned
/// `Ok`.
#[verifier::external_body]
pub fn verify_password(password: &str, hash: &str) -> (accepted: bool)
    ensures
        accepted == password_verifies(password@, hash@),
{
    password_auth::verify_password(password, hash).is_ok()
}

/// Calls `str::to_lowercase` of std.
#[verifier::external_body]
fn to_lowercase(text: &str) -> (lower: String)
    ensures
        lower@ == lowercase(text@),
{
    text.to_lowercase()
}

/// The form of an e-mail address under which accounts are stored and
/// looked up: its lower-case mapping, so that addresses differing only in
/// case name the same account.
pub fn normalize_email(email: &str) -> (key: String)
    ensures
        key@ == lowercase(email@),
{
    to_lowercase(email)
}

} // verus!
