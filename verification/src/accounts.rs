//! User accounts: roles, the encrypted e-mail address of an account, its
//! lookup key and its password hash, and the decisions of sign-up and
//! sign-in. The rows themselves are kept by the caller.

use vstd::prelude::*;
use vstd::string::StringSliceAdditionalSpecFns;
use vstd::utf8::decode_utf8;
use vstd::utf8::valid_utf8;
use aes_gcm::aead::Aead;
use aes_gcm::aead::KeyInit;
use aes_gcm::aead::OsRng;
use aes_gcm::Aes256Gcm;
use aes_gcm::Nonce;
use argon2::password_hash::PasswordHash;
use argon2::password_hash::PasswordHasher;
use argon2::password_hash::PasswordVerifier;
use argon2::password_hash::SaltString;
use argon2::Argon2;
use base64::engine::general_purpose::STANDARD;
use base64::Engine;
use rand::RngCore;

verus! {

/// The error of the `aes_gcm` cipher.
#[verifier::external_type_specification]
#[verifier::external_body]
pub struct ExAeadError(aes_gcm::Error);

/// Why a text is not base64, as the `base64` crate says it.
#[verifier::external_type_specification]
#[verifier::external_body]
pub struct ExDecodeError(base64::DecodeError);

/// The error of the password hashing of `argon2`.
#[verifier::external_type_specification]
#[verifier::external_body]
pub struct ExPasswordHashError(argon2::password_hash::Error);

/// The error of a random number generator of `rand`.
#[verifier::external_type_specification]
#[verifier::external_body]
pub struct ExRandError(rand::Error);

/// Why bytes are not UTF-8, as `String::from_utf8` says it.
#[verifier::external_type_specification]
#[verifier::external_body]
pub struct ExFromUtf8Error(std::string::FromUtf8Error);

/// Length of an AES-GCM nonce in bytes.
pub const NONCE_LEN: usize = 12;

/// Number of random bytes in a fresh salt.
pub const SALT_LEN: usize = 16;

/// Length of the authentication tag that AES-GCM appends, in bytes.
pub const TAG_LEN: usize = 16;

/// The longest plaintext that AES-GCM takes, in bytes.
pub const MAX_PLAINTEXT_LEN: u64 = 0x10_0000_0000;

/// The role of an account.
#[derive(Debug, Clone, Copy, PartialEq, Eq, Structural)]
pub enum Role {
    SuperAdmin,
    Admin,
    PowerUser,
    User,
}

/// An account as stored.
#[derive(Debug, Clone)]
pub struct UserAccount {
    pub id: i64,
    pub email_encrypted_b64: String,
    pub email_nonce_b64: String,
    pub password_hash: String,
    pub role: Role,
    pub created_at: i64,
}

/// Where the account database lies and the key that protects the e-mail
/// addresses in it.
#[derive(Debug, Clone)]
pub struct DbConfig {
    pub path: String,
    pub key_256bit: [u8; 32],
}

/// Why an account operation failed.
#[derive(Debug, Clone, Copy, PartialEq, Eq, Structural)]
pub enum AccountError {
    /// A stored role is none of the four role names.
    InvalidRole,
    /// The operating system gave no random bytes, or none that make a
    /// nonce or a salt.
    Random,
    /// The cipher refused the plaintext.
    Encrypt,
    /// The ciphertext is not authentic, or not a ciphertext.
    Decrypt,
    /// A stored nonce does not have the length of a nonce.
    NonceLength,
    /// A stored value is not base64.
    Base64,
    /// The decrypted bytes are not UTF-8.
    Utf8,
    /// The password could not be hashed, or a stored hash does not parse.
    PasswordHash,
}

/// The name under which a role is stored.
pub open spec fn role_name(role: Role) -> Seq<char> {
    match role {
        Role::SuperAdmin => "SuperAdmin"@,
        Role::Admin => "Admin"@,
        Role::PowerUser => "PowerUser"@,
        Role::User => "User"@,
    }
}

/// The role that a stored name stands for, if it is a role's name.
pub open spec fn role_of_name(name: Seq<char>) -> Option<Role> {
    if name == role_name(Role::SuperAdmin) {
        Some(Role::SuperAdmin)
    } else if name == role_name(Role::Admin) {
        Some(Role::Admin)
    } else if name == role_name(Role::PowerUser) {
        Some(Role::PowerUser)
    } else if name == role_name(Role::User) {
        Some(Role::User)
    } else {
        None
    }
}

/// The ciphertext, tag included, that AES-256-GCM gives for a key, a nonce
/// and a plaintext, without associated data; nothing where the cipher refuses.
pub uninterp spec fn aes256_gcm_seal(key: Seq<u8>, nonce: Seq<u8>, plaintext: Seq<u8>) -> Option<
    Seq<u8>,
>;

/// The plaintext that AES-256-GCM recovers from a ciphertext with its tag;
/// nothing where the tag does not fit.
pub uninterp spec fn aes256_gcm_open(key: Seq<u8>, nonce: Seq<u8>, ciphertext: Seq<u8>) -> Option<
    Seq<u8>,
>;

/// The standard base64 text, with padding, of a byte string.
pub uninterp spec fn base64_text(bytes: Seq<u8>) -> Seq<char>;

/// The bytes that a standard base64 text with padding stands for; nothing
/// where the text is not such a text.
pub uninterp spec fn base64_bytes(text: Seq<char>) -> Option<Seq<u8>>;

/// The Argon2 password hash, as a PHC string, of a password under a salt
/// with the default parameters; nothing where the salt or the password is
/// refused.
pub uninterp spec fn argon2_phc(password: Seq<u8>, salt: Seq<char>) -> Option<Seq<char>>;

/// The salt text, in the unpadded base64 of password hashes, of salt bytes;
/// nothing where the bytes are too many for a salt.
pub uninterp spec fn salt_text(bytes: Seq<u8>) -> Option<Seq<char>>;

/// Whether a password fits a PHC string; nothing where the string does not
/// parse as one.
pub uninterp spec fn argon2_fits(password: Seq<u8>, phc: Seq<char>) -> Option<bool>;

/// Trusted: `try_fill_bytes` of the operating system's generator
/// (`aes_gcm::aead::OsRng`). It overwrites the buffer with random bytes and
/// leaves its length as it is: no more is known of what it holds.
#[verifier::external_body]
fn fill_random(buffer: &mut Vec<u8>) -> (r: Result<(), rand::Error>)
    ensures
        final(buffer)@.len() == old(buffer)@.len(),
{
    OsRng.try_fill_bytes(buffer)
}

/// Trusted: `Aead::encrypt` of `aes_gcm::Aes256Gcm`, keyed with `key`, on a
/// plaintext without associated data. The result depends on key, nonce and
/// plaintext alone; it fails only for a plaintext over the cipher's limit,
/// and the ciphertext is the length of the plaintext plus the tag.
#[verifier::external_body]
fn aes_seal(key: &[u8; 32], nonce: &[u8], plaintext: &[u8]) -> (r: Result<Vec<u8>, aes_gcm::Error>)
    requires
        nonce@.len() == NONCE_LEN,
    ensures
        match r {
            Ok(ct) => aes256_gcm_seal(key@, nonce@, plaintext@) == Some(ct@) && ct@.len()
                == plaintext@.len() + TAG_LEN,
            Err(_) => aes256_gcm_seal(key@, nonce@, plaintext@) is None,
        },
        plaintext@.len() <= MAX_PLAINTEXT_LEN ==> r is Ok,
{
    Aes256Gcm::new(key.into()).encrypt(Nonce::from_slice(nonce), plaintext)
}

/// Trusted: `Aead::decrypt` of `aes_gcm::Aes256Gcm`, keyed with `key`, on a
/// ciphertext without associated data. The result depends on key, nonce and
/// ciphertext alone.
#[verifier::external_body]
fn aes_open(key: &[u8; 32], nonce: &[u8], ciphertext: &[u8]) -> (r: Result<Vec<u8>, aes_gcm::Error>)
    requires
        nonce@.len() == NONCE_LEN,
    ensures
        match r {
            Ok(pt) => aes256_gcm_open(key@, nonce@, ciphertext@) == Some(pt@),
            Err(_) => aes256_gcm_open(key@, nonce@, ciphertext@) is None,
        },
{
    Aes256Gcm::new(key.into()).decrypt(Nonce::from_slice(nonce), ciphertext)
}

/// Trusted: `Engine::encode` of `base64::engine::general_purpose::STANDARD`.
/// The text depends on the bytes alone. The length limit keeps the length
/// of the text within `usize`.
#[verifier::external_body]
fn base64_encode(bytes: &[u8]) -> (text: String)
    requires
        bytes@.len() <= usize::MAX / 2,
    ensures
        text@ == base64_text(bytes@),
{
    STANDARD.encode(bytes)
}

/// Trusted: `Engine::decode` of `base64::engine::general_purpose::STANDARD`.
/// Whether the text decodes, and to what, depends on the text alone.
#[verifier::external_body]
fn base64_decode(text: &str) -> (r: Result<Vec<u8>, base64::DecodeError>)
    ensures
        match r {
            Ok(bytes) => base64_bytes(text@) == Some(bytes@),
            Err(_) => base64_bytes(text@) is None,
        },
{
    STANDARD.decode(text)
}

/// Trusted: `String::from_utf8` succeeds exactly on valid UTF-8 and gives
/// the text that the bytes encode.
#[verifier::external_body]
fn utf8_text(bytes: Vec<u8>) -> (r: Result<String, std::string::FromUtf8Error>)
    ensures
        r is Ok <==> valid_utf8(bytes@),
        r matches Ok(s) ==> s@ == decode_utf8(bytes@),
{
    String::from_utf8(bytes)
}

/// Trusted: `SaltString::encode_b64` of `argon2::password_hash` encodes
/// salt bytes as a salt text. Whether it succeeds, and the text, depend on
/// the bytes alone.
#[verifier::external_body]
fn encode_salt(bytes: &[u8]) -> (r: Result<String, argon2::password_hash::Error>)
    ensures
        match r {
            Ok(salt) => salt_text(bytes@) == Some(salt@),
            Err(_) => salt_text(bytes@) is None,
        },
{
    match SaltString::encode_b64(bytes) {
        Ok(salt) => Ok(salt.as_str().to_owned()),
        Err(e) => Err(e),
    }
}

/// Trusted: `PasswordHasher::hash_password` of `argon2::Argon2::default()`
/// with the salt `salt`, rendered as a PHC string. The result depends on
/// the password and the salt alone.
#[verifier::external_body]
fn argon2_hash(password: &[u8], salt: &str) -> (r: Result<String, argon2::password_hash::Error>)
    ensures
        match r {
            Ok(phc) => argon2_phc(password@, salt@) == Some(phc@),
            Err(_) => argon2_phc(password@, salt@) is None,
        },
{
    let salt = SaltString::from_b64(salt)?;
    Ok(Argon2::default().hash_password(password, &salt)?.to_string())
}

/// Trusted: `PasswordVerifier::verify_password` of
/// `argon2::Argon2::default()` against the PHC string `phc`, parsed with
/// `PasswordHash::new`. A string that does not parse is an error; for one
/// that parses the answer depends on the password and the string alone.
#[verifier::external_body]
fn argon2_verify(password: &[u8], phc: &str) -> (r: Result<bool, argon2::password_hash::Error>)
    ensures
        match r {
            Ok(fits) => argon2_fits(password@, phc@) == Some(fits),
            Err(_) => argon2_fits(password@, phc@) is None,
        },
{
    let parsed = PasswordHash::new(phc)?;
    Ok(Argon2::default().verify_password(password, &parsed).is_ok())
}

/// Whether two texts are the same.
fn same_text(a: &str, b: &str) -> (same: bool)
    ensures
        same == (a@ == b@),
{
    let x = a.to_owned();
    let y = b.to_owned();
    x == y
}

/// The four role names differ from one another.
pub proof fn lemma_role_names_differ(a: Role, b: Role)
    ensures
        role_name(a) == role_name(b) ==> a == b,
{
    reveal_strlit("SuperAdmin");
    reveal_strlit("Admin");
    reveal_strlit("PowerUser");
    reveal_strlit("User");
    assert("SuperAdmin"@.len() == 10);
    assert("Admin"@.len() == 5);
    assert("PowerUser"@.len() == 9);
    assert("User"@.len() == 4);
}

/// The name under which a role is stored.
pub fn to_role_str(role: &Role) -> (name: &'static str)
    ensures
        name@ == role_name(*role),
{
    match role {
        Role::SuperAdmin => "SuperAdmin",
        Role::Admin => "Admin",
        Role::PowerUser => "PowerUser",
        Role::User => "User",
    }
}

/// The role that a stored name stands for. Any other text is refused.
pub fn from_role_str(s: &str) -> (r: Result<Role, AccountError>)
    ensures
        r == match role_of_name(s@) {
            Some(role) => Ok::<Role, AccountError>(role),
            None => Err(AccountError::InvalidRole),
        },
        match r {
            Ok(role) => s@ == role_name(role),
            Err(e) => e == AccountError::InvalidRole && forall|role: Role| s@ != role_name(role),
        },
{
    if same_text(s, "SuperAdmin") {
        Ok(Role::SuperAdmin)
    } else if same_text(s, "Admin") {
        Ok(Role::Admin)
    } else if same_text(s, "PowerUser") {
        Ok(Role::PowerUser)
    } else if same_text(s, "User") {
        Ok(Role::User)
    } else {
        Err(AccountError::InvalidRole)
    }
}

/// The nonce of the lookup key: twelve zero bytes.
pub open spec fn zero_nonce() -> Seq<u8> {
    Seq::new(NONCE_LEN as nat, |i: int| 0u8)
}

/// The base64 text of a sealed plaintext. The cipher refuses a plaintext
/// over its limit, and a ciphertext whose base64 text would not fit the
/// machine's address space is refused in the same way.
pub open spec fn sealed_text(key: Seq<u8>, nonce: Seq<u8>, plaintext: Seq<u8>) -> Result<
    Seq<char>,
    AccountError,
> {
    if plaintext.len() + TAG_LEN > usize::MAX / 2 {
        Err(AccountError::Encrypt)
    } else {
        match aes256_gcm_seal(key, nonce, plaintext) {
            Some(ct) => Ok(base64_text(ct)),
            None => Err(AccountError::Encrypt),
        }
    }
}

/// A plaintext that is sure to be sealed: within the cipher's limit and
/// the machine's.
pub open spec fn sealable(plaintext: Seq<u8>) -> bool {
    plaintext.len() <= MAX_PLAINTEXT_LEN && plaintext.len() + TAG_LEN <= usize::MAX / 2
}

/// The e-mail address that stored texts stand for under a key.
pub open spec fn opened_email(key: Seq<u8>, enc_b64: Seq<char>, nonce_b64: Seq<char>) -> Result<
    Seq<char>,
    AccountError,
> {
    match base64_bytes(nonce_b64) {
        None => Err(AccountError::Base64),
        Some(nonce) => if nonce.len() != NONCE_LEN {
            Err(AccountError::NonceLength)
        } else {
            match base64_bytes(enc_b64) {
                None => Err(AccountError::Base64),
                Some(ct) => match aes256_gcm_open(key, nonce, ct) {
                    None => Err(AccountError::Decrypt),
                    Some(pt) => if valid_utf8(pt) {
                        Ok(decode_utf8(pt))
                    } else {
                        Err(AccountError::Utf8)
                    },
                },
            }
        },
    }
}

/// The view of the result of a text-valued operation.
pub open spec fn text_result(r: Result<String, AccountError>) -> Result<Seq<char>, AccountError> {
    match r {
        Ok(s) => Ok(s@),
        Err(e) => Err(e),
    }
}

/// Seals `plaintext` under `nonce` and encodes the ciphertext as base64.
fn seal_to_text(key: &[u8; 32], nonce: &[u8], plaintext: &[u8]) -> (r: Result<String, AccountError>)
    requires
        nonce@.len() == NONCE_LEN,
    ensures
        text_result(r) == sealed_text(key@, nonce@, plaintext@),
        sealable(plaintext@) ==> r is Ok,
{
    if plaintext.len() > usize::MAX / 2 - TAG_LEN {
        return Err(AccountError::Encrypt);
    }
    match aes_seal(key, nonce, plaintext) {
        Ok(ct) => Ok(base64_encode(ct.as_slice())),
        Err(_) => Err(AccountError::Encrypt),
    }
}

/// Encrypts an e-mail address under the given nonce. Both texts of the
/// result are base64: the ciphertext first, then the nonce.
pub fn encrypt_email_with_nonce(key: &[u8; 32], nonce: &[u8], email: &str) -> (r: Result<
    (String, String),
    AccountError,
>)
    requires
        nonce@.len() == NONCE_LEN,
    ensures
        match r {
            Ok((ct, n)) => sealed_text(key@, nonce@, email.spec_bytes()) == Ok::<
                Seq<char>,
                AccountError,
            >(ct@) && n@ == base64_text(nonce@),
            Err(e) => sealed_text(key@, nonce@, email.spec_bytes()) == Err::<
                Seq<char>,
                AccountError,
            >(e),
        },
        sealable(email.spec_bytes()) ==> r is Ok,
{
    match seal_to_text(key, nonce, email.as_bytes()) {
        Ok(ct) => Ok((ct, base64_encode(nonce))),
        Err(e) => Err(e),
    }
}

/// Encrypts an e-mail address under a fresh random nonce and returns the
/// ciphertext and the nonce, both as base64. What comes back is what
/// `encrypt_email_with_nonce` gives for some nonce.
pub fn encrypt_email(key: &[u8; 32], email: &str) -> (r: Result<(String, String), AccountError>)
    ensures
        match r {
            Ok((ct, n)) => exists|nonce: Seq<u8>|
                nonce.len() == NONCE_LEN && #[trigger] sealed_text(key@, nonce, email.spec_bytes())
                    == Ok::<Seq<char>, AccountError>(ct@) && n@ == base64_text(nonce),
            Err(e) => e == AccountError::Random || (e == AccountError::Encrypt && !sealable(
                email.spec_bytes(),
            )),
        },
{
    let mut nonce: Vec<u8> = vec![0u8; NONCE_LEN];
    match fill_random(&mut nonce) {
        Err(_) => Err(AccountError::Random),
        Ok(_) => {
            let r = encrypt_email_with_nonce(key, nonce.as_slice(), email);
            proof {
                if r is Ok {
                    assert(sealed_text(key@, nonce@, email.spec_bytes()) == Ok::<
                        Seq<char>,
                        AccountError,
                    >(r->Ok_0.0@));
                }
            }
            r
        },
    }
}

/// Decrypts a stored e-mail address from its two base64 texts.
pub fn decrypt_email(key: &[u8; 32], enc_b64: &str, nonce_b64: &str) -> (r: Result<
    String,
    AccountError,
>)
    ensures
        text_result(r) == opened_email(key@, enc_b64@, nonce_b64@),
{
    let nonce = match base64_decode(nonce_b64) {
        Ok(n) => n,
        Err(_) => { return Err(AccountError::Base64); },
    };
    if nonce.len() != NONCE_LEN {
        return Err(AccountError::NonceLength);
    }
    let ct = match base64_decode(enc_b64) {
        Ok(c) => c,
        Err(_) => { return Err(AccountError::Base64); },
    };
    let pt = match aes_open(key, nonce.as_slice(), ct.as_slice()) {
        Ok(p) => p,
        Err(_) => { return Err(AccountError::Decrypt); },
    };
    match utf8_text(pt) {
        Ok(s) => Ok(s),
        Err(_) => Err(AccountError::Utf8),
    }
}

/// The key by which an account is found: the e-mail address sealed under the
/// all-zero nonce, as base64. Equal addresses give equal keys. That is what
/// makes the key a key, and it is also a weakness: whoever reads the table
/// can tell which rows hold the same address, and can test a guessed address
/// if the encryption key leaks. Weigh this before relying on it.
pub fn email_lookup_key(cfg: &DbConfig, email: &str) -> (r: Result<String, AccountError>)
    ensures
        text_result(r) == sealed_text(cfg.key_256bit@, zero_nonce(), email.spec_bytes()),
        sealable(email.spec_bytes()) ==> r is Ok,
{
    let nonce: [u8; 12] = [0u8; 12];
    assert(nonce@ =~= zero_nonce());
    seal_to_text(&cfg.key_256bit, nonce.as_slice(), email.as_bytes())
}

/// Hashes a password under the given salt.
pub fn hash_password_with_salt(password: &str, salt: &str) -> (r: Result<String, AccountError>)
    ensures
        text_result(r) == match argon2_phc(password.spec_bytes(), salt@) {
            Some(phc) => Ok::<Seq<char>, AccountError>(phc),
            None => Err(AccountError::PasswordHash),
        },
{
    match argon2_hash(password.as_bytes(), salt) {
        Ok(phc) => Ok(phc),
        Err(_) => Err(AccountError::PasswordHash),
    }
}

/// Hashes a password under a fresh random salt of `SALT_LEN` bytes. What
/// comes back is what `hash_password_with_salt` gives for the text of some
/// such salt. Where the operating system gives no random bytes, or they
/// make no salt, the error is `Random`.
pub fn hash_password(password: &str) -> (r: Result<String, AccountError>)
    ensures
        match r {
            Ok(phc) => exists|bytes: Seq<u8>|
                bytes.len() == SALT_LEN && salt_text(bytes) is Some && #[trigger] argon2_phc(
                    password.spec_bytes(),
                    salt_text(bytes)->0,
                ) == Some(phc@),
            Err(e) => e == AccountError::Random || (e == AccountError::PasswordHash
                && exists|salt: Seq<char>|
                #[trigger] argon2_phc(password.spec_bytes(), salt) is None),
        },
{
    let mut bytes: Vec<u8> = vec![0u8; SALT_LEN];
    match fill_random(&mut bytes) {
        Err(_) => { return Err(AccountError::Random); },
        Ok(_) => {},
    }
    let salt = match encode_salt(bytes.as_slice()) {
        Ok(salt) => salt,
        Err(_) => { return Err(AccountError::Random); },
    };
    let r = hash_password_with_salt(password, salt.as_str());
    proof {
        if r is Ok {
            assert(argon2_phc(password.spec_bytes(), salt_text(bytes@)->0) == Some(r->Ok_0@));
        } else {
            assert(argon2_phc(password.spec_bytes(), salt@) is None);
        }
    }
    r
}

/// Whether a password fits a stored hash. A stored hash that does not parse
/// is an error, not a mismatch.
pub fn verify_password(password: &str, hash: &str) -> (r: Result<bool, AccountError>)
    ensures
        r == match argon2_fits(password.spec_bytes(), hash@) {
            Some(fits) => Ok::<bool, AccountError>(fits),
            None => Err(AccountError::PasswordHash),
        },
{
    match argon2_verify(password.as_bytes(), hash) {
        Ok(fits) => Ok(fits),
        Err(_) => Err(AccountError::PasswordHash),
    }
}

/// The values of a new account's row.
#[derive(Debug, Clone)]
pub struct NewUser {
    pub email_encrypted_b64: String,
    pub email_nonce_b64: String,
    pub email_lookup_b64: String,
    pub password_hash: String,
    pub role: String,
    pub created_at: i64,
}

/// The values of a stored account's row.
#[derive(Debug, Clone)]
pub struct StoredUser {
    pub id: i64,
    pub email_encrypted_b64: String,
    pub email_nonce_b64: String,
    pub password_hash: String,
    pub role: String,
    pub created_at: i64,
}

/// `account` is the stored row `row` with its role read as `role`.
pub open spec fn is_account_of(account: UserAccount, row: StoredUser, role: Role) -> bool {
    &&& account.id == row.id
    &&& account.email_encrypted_b64@ == row.email_encrypted_b64@
    &&& account.email_nonce_b64@ == row.email_nonce_b64@
    &&& account.password_hash@ == row.password_hash@
    &&& account.role == role
    &&& account.created_at == row.created_at
}

/// `row` is a row for the given address, password and role: the address
/// sealed under some nonce of the right length, the password hashed under
/// the text of some salt of the right length.
pub open spec fn is_new_user_of(
    row: NewUser,
    key: Seq<u8>,
    lookup: Seq<char>,
    email: Seq<u8>,
    password: Seq<u8>,
    role: Role,
    created_at: i64,
) -> bool {
    &&& row.email_lookup_b64@ == lookup
    &&& row.role@ == role_name(role)
    &&& row.created_at == created_at
    &&& exists|nonce: Seq<u8>|
        nonce.len() == NONCE_LEN && #[trigger] sealed_text(key, nonce, email) == Ok::<
            Seq<char>,
            AccountError,
        >(row.email_encrypted_b64@) && row.email_nonce_b64@ == base64_text(nonce)
    &&& exists|bytes: Seq<u8>|
        bytes.len() == SALT_LEN && salt_text(bytes) is Some && #[trigger] argon2_phc(
            password,
            salt_text(bytes)->0,
        ) == Some(row.password_hash@)
}

/// Sign-up. `stored` says whether an account with the lookup key `lookup`
/// is stored already: then nothing is to be done. Else the row to insert
/// comes back, with the address encrypted under a fresh nonce and the
/// password hashed under a fresh salt.
pub fn create_user_if_missing(
    stored: bool,
    lookup: String,
    cfg: &DbConfig,
    email: &str,
    password: &str,
    role: Role,
    created_at: i64,
) -> (r: Result<Option<NewUser>, AccountError>)
    ensures
        stored ==> r == Ok::<Option<NewUser>, AccountError>(None),
        !stored ==> match r {
            Ok(Some(row)) => is_new_user_of(
                row,
                cfg.key_256bit@,
                lookup@,
                email.spec_bytes(),
                password.spec_bytes(),
                role,
                created_at,
            ),
            Ok(None) => false,
            Err(e) => e == AccountError::Random || (e == AccountError::Encrypt && !sealable(
                email.spec_bytes(),
            )) || (e == AccountError::PasswordHash && exists|salt: Seq<char>|
                #[trigger] argon2_phc(password.spec_bytes(), salt) is None),
        },
{
    if stored {
        return Ok(None);
    }
    let (email_encrypted_b64, email_nonce_b64) = match encrypt_email(&cfg.key_256bit, email) {
        Ok(pair) => pair,
        Err(e) => { return Err(e); },
    };
    let password_hash = match hash_password(password) {
        Ok(h) => h,
        Err(e) => { return Err(e); },
    };
    let row = NewUser {
        email_encrypted_b64,
        email_nonce_b64,
        email_lookup_b64: lookup,
        password_hash,
        role: to_role_str(&role).to_owned(),
        created_at,
    };
    Ok(Some(row))
}

/// Sign-in. `row` is the stored account with the address's lookup key, if
/// there is one. The account comes back where the password fits its hash;
/// no row, or a password that does not fit, gives nothing. A stored hash
/// that does not parse, or a stored role that is no role, is an error.
pub fn authenticate_user(row: Option<StoredUser>, password: &str) -> (r: Result<
    Option<UserAccount>,
    AccountError,
>)
    ensures
        match row {
            None => r == Ok::<Option<UserAccount>, AccountError>(None),
            Some(stored) => match argon2_fits(password.spec_bytes(), stored.password_hash@) {
                None => r == Err::<Option<UserAccount>, AccountError>(AccountError::PasswordHash),
                Some(false) => r == Ok::<Option<UserAccount>, AccountError>(None),
                Some(true) => match r {
                    Ok(Some(account)) => stored.role@ == role_name(account.role) && is_account_of(
                        account,
                        stored,
                        account.role,
                    ),
                    Ok(None) => false,
                    Err(e) => e == AccountError::InvalidRole && forall|role: Role|
                        stored.role@ != role_name(role),
                },
            },
        },
{
    let stored = match row {
        Some(stored) => stored,
        None => { return Ok(None); },
    };
    let fits = match verify_password(password, stored.password_hash.as_str()) {
        Ok(fits) => fits,
        Err(e) => { return Err(e); },
    };
    if !fits {
        return Ok(None);
    }
    let role = match from_role_str(stored.role.as_str()) {
        Ok(role) => role,
        Err(e) => { return Err(e); },
    };
    Ok(
        Some(
            UserAccount {
                id: stored.id,
                email_encrypted_b64: stored.email_encrypted_b64,
                email_nonce_b64: stored.email_nonce_b64,
                password_hash: stored.password_hash,
                role,
                created_at: stored.created_at,
            },
        ),
    )
}

/// Reading back the name under which a role is stored gives that role.
pub proof fn lemma_role_round_trip(role: Role)
    ensures
        role_of_name(role_name(role)) == Some(role),
{
    lemma_role_names_differ(role, Role::SuperAdmin);
    lemma_role_names_differ(role, Role::Admin);
    lemma_role_names_differ(role, Role::PowerUser);
    lemma_role_names_differ(role, Role::User);
}

impl AccountError {
    /// A short description of the error.
    pub fn message(&self) -> (text: &'static str)
        ensures
            text@ == error_message(*self),
    {
        match self {
            AccountError::InvalidRole => "invalid role",
            AccountError::Random => "random",
            AccountError::Encrypt => "encrypt",
            AccountError::Decrypt => "decrypt",
            AccountError::NonceLength => "nonce length",
            AccountError::Base64 => "base64",
            AccountError::Utf8 => "utf8",
            AccountError::PasswordHash => "password hash",
        }
    }
}

/// The description of an error.
pub open spec fn error_message(e: AccountError) -> Seq<char> {
    match e {
        AccountError::InvalidRole => "invalid role"@,
        AccountError::Random => "random"@,
        AccountError::Encrypt => "encrypt"@,
        AccountError::Decrypt => "decrypt"@,
        AccountError::NonceLength => "nonce length"@,
        AccountError::Base64 => "base64"@,
        AccountError::Utf8 => "utf8"@,
        AccountError::PasswordHash => "password hash"@,
    }
}

} // verus!
