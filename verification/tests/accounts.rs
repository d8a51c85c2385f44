use aes_gcm::aead::Aead;
use aes_gcm::aead::KeyInit;
use base64::Engine;
use rand::distributions::Alphanumeric;
use rand::Rng;
use whereitbelongs::accounts::authenticate_user;
use whereitbelongs::accounts::create_user_if_missing;
use whereitbelongs::accounts::decrypt_email;
use whereitbelongs::accounts::email_lookup_key;
use whereitbelongs::accounts::encrypt_email;
use whereitbelongs::accounts::encrypt_email_with_nonce;
use whereitbelongs::accounts::from_role_str;
use whereitbelongs::accounts::hash_password;
use whereitbelongs::accounts::hash_password_with_salt;
use whereitbelongs::accounts::to_role_str;
use whereitbelongs::accounts::verify_password;
use whereitbelongs::accounts::AccountError;
use whereitbelongs::accounts::DbConfig;
use whereitbelongs::accounts::NewUser;
use whereitbelongs::accounts::Role;
use whereitbelongs::accounts::StoredUser;
use whereitbelongs::accounts::NONCE_LEN;
use whereitbelongs::accounts::SALT_LEN;

/// The table of accounts, kept in memory.
struct Table {
    rows: Vec<(String, StoredUser)>,
}

impl Table {
    fn new() -> Table {
        Table { rows: Vec::new() }
    }

    fn find(&self, lookup: &str) -> Option<StoredUser> {
        self.rows.iter().find(|(key, _)| key == lookup).map(|(_, row)| row.clone())
    }

    fn insert(&mut self, new: NewUser) {
        let id = self.rows.len() as i64 + 1;
        let row = StoredUser {
            id,
            email_encrypted_b64: new.email_encrypted_b64,
            email_nonce_b64: new.email_nonce_b64,
            password_hash: new.password_hash,
            role: new.role,
            created_at: new.created_at,
        };
        self.rows.push((new.email_lookup_b64, row));
    }
}

fn sign_up(table: &mut Table, cfg: &DbConfig, email: &str, password: &str, role: Role) -> Result<(), AccountError> {
    let lookup = email_lookup_key(cfg, email)?;
    let stored = table.find(&lookup).is_some();
    if let Some(new) = create_user_if_missing(stored, lookup, cfg, email, password, role, 1_700_000_000)? {
        table.insert(new);
    }
    Ok(())
}

fn sign_in(table: &Table, cfg: &DbConfig, email: &str, password: &str) -> Result<Option<whereitbelongs::accounts::UserAccount>, AccountError> {
    let lookup = email_lookup_key(cfg, email)?;
    authenticate_user(table.find(&lookup), password)
}

#[test]
fn create_and_authenticate_user() {
    let mut table = Table::new();
    let key: [u8; 32] = rand::random();
    let cfg = DbConfig { path: "accounts.db".to_string(), key_256bit: key };
    let email = "user@example.com";
    let password: String = rand::thread_rng().sample_iter(&Alphanumeric).take(12).map(char::from).collect();
    sign_up(&mut table, &cfg, email, &password, Role::User).expect("sign-up");
    let auth = sign_in(&table, &cfg, email, &password).expect("sign-in");
    assert!(auth.is_some());
}

#[test]
fn sign_in_checks_password_and_address() {
    let mut table = Table::new();
    let cfg = DbConfig { path: "accounts.db".to_string(), key_256bit: [7u8; 32] };
    sign_up(&mut table, &cfg, "admin@example.com", "correct horse", Role::Admin).expect("sign-up");
    let account = sign_in(&table, &cfg, "admin@example.com", "correct horse").expect("sign-in").expect("account");
    assert_eq!(account.id, 1);
    assert_eq!(account.role, Role::Admin);
    assert_eq!(account.created_at, 1_700_000_000);
    assert_eq!(
        decrypt_email(&cfg.key_256bit, &account.email_encrypted_b64, &account.email_nonce_b64),
        Ok("admin@example.com".to_string())
    );
    assert!(sign_in(&table, &cfg, "admin@example.com", "wrong").expect("sign-in").is_none());
    assert!(sign_in(&table, &cfg, "other@example.com", "correct horse").expect("sign-in").is_none());
}

#[test]
fn sign_up_twice_keeps_one_account() {
    let mut table = Table::new();
    let cfg = DbConfig { path: "accounts.db".to_string(), key_256bit: [1u8; 32] };
    sign_up(&mut table, &cfg, "a@example.com", "first", Role::User).expect("sign-up");
    sign_up(&mut table, &cfg, "a@example.com", "second", Role::Admin).expect("sign-up");
    assert_eq!(table.rows.len(), 1);
    assert!(sign_in(&table, &cfg, "a@example.com", "first").expect("sign-in").is_some());
    assert!(sign_in(&table, &cfg, "a@example.com", "second").expect("sign-in").is_none());
    let lookup = email_lookup_key(&cfg, "a@example.com").expect("key");
    assert!(matches!(
        create_user_if_missing(true, lookup, &cfg, "a@example.com", "x", Role::User, 0),
        Ok(None)
    ));
}

#[test]
fn new_row_holds_what_was_given() {
    let cfg = DbConfig { path: "accounts.db".to_string(), key_256bit: [9u8; 32] };
    let lookup = email_lookup_key(&cfg, "p@example.com").expect("key");
    let row = create_user_if_missing(false, lookup.clone(), &cfg, "p@example.com", "pw", Role::PowerUser, 42)
        .expect("row")
        .expect("a row to insert");
    assert_eq!(row.email_lookup_b64, lookup);
    assert_eq!(row.role, "PowerUser");
    assert_eq!(row.created_at, 42);
    assert_eq!(verify_password("pw", &row.password_hash), Ok(true));
    assert_eq!(
        decrypt_email(&cfg.key_256bit, &row.email_encrypted_b64, &row.email_nonce_b64),
        Ok("p@example.com".to_string())
    );
}

#[test]
fn authenticate_reports_bad_rows() {
    let good_hash = hash_password_with_salt("pw", "c29tZXNhbHRzb21lc2FsdA").expect("hash");
    let row = |hash: &str, role: &str| StoredUser {
        id: 5,
        email_encrypted_b64: "ct".to_string(),
        email_nonce_b64: "n".to_string(),
        password_hash: hash.to_string(),
        role: role.to_string(),
        created_at: 9,
    };
    assert!(matches!(authenticate_user(None, "pw"), Ok(None)));
    assert!(matches!(authenticate_user(Some(row("not a hash", "User")), "pw"), Err(AccountError::PasswordHash)));
    assert!(matches!(authenticate_user(Some(row(&good_hash, "Root")), "pw"), Err(AccountError::InvalidRole)));
    // A password that does not fit gives nothing, whatever the role says.
    assert!(matches!(authenticate_user(Some(row(&good_hash, "Root")), "other"), Ok(None)));
    let account = authenticate_user(Some(row(&good_hash, "SuperAdmin")), "pw").expect("ok").expect("account");
    assert_eq!(account.id, 5);
    assert_eq!(account.email_encrypted_b64, "ct");
    assert_eq!(account.email_nonce_b64, "n");
    assert_eq!(account.password_hash, good_hash);
    assert_eq!(account.role, Role::SuperAdmin);
    assert_eq!(account.created_at, 9);
}

#[test]
fn role_names_round_trip() {
    for role in [Role::SuperAdmin, Role::Admin, Role::PowerUser, Role::User] {
        assert_eq!(from_role_str(to_role_str(&role)), Ok(role));
    }
    assert_eq!(to_role_str(&Role::SuperAdmin), "SuperAdmin");
    assert_eq!(to_role_str(&Role::Admin), "Admin");
    assert_eq!(to_role_str(&Role::PowerUser), "PowerUser");
    assert_eq!(to_role_str(&Role::User), "User");
    assert_eq!(from_role_str("admin"), Err(AccountError::InvalidRole));
    assert_eq!(from_role_str(""), Err(AccountError::InvalidRole));
    assert_eq!(from_role_str("User "), Err(AccountError::InvalidRole));
    assert_eq!(AccountError::InvalidRole.message(), "invalid role");
    assert_eq!(AccountError::Decrypt.message(), "decrypt");
    assert_eq!(AccountError::Utf8.message(), "utf8");
}

#[test]
fn lookup_key_is_deterministic_and_keyed() {
    let a = DbConfig { path: String::new(), key_256bit: [0u8; 32] };
    let b = DbConfig { path: String::new(), key_256bit: [1u8; 32] };
    let k1 = email_lookup_key(&a, "user@example.com").expect("key");
    let k2 = email_lookup_key(&a, "user@example.com").expect("key");
    assert_eq!(k1, k2);
    assert_ne!(k1, email_lookup_key(&a, "user@example.org").expect("key"));
    assert_ne!(k1, email_lookup_key(&b, "user@example.com").expect("key"));
    // AES-256-GCM with an all-zero key and nonce on the empty plaintext gives
    // the bare tag.
    assert_eq!(email_lookup_key(&a, ""), Ok("Uw+K+8dFNrmpY7TxxMtziw==".to_string()));
    // The lookup key is the address sealed under the all-zero nonce.
    let (ct, nonce) = encrypt_email_with_nonce(&a.key_256bit, &[0u8; 12], "user@example.com").expect("sealed");
    assert_eq!(ct, k1);
    assert_eq!(nonce, "AAAAAAAAAAAAAAAA");
}

#[test]
fn encrypted_email_decrypts_to_itself() {
    let key = [3u8; 32];
    let (ct, nonce) = encrypt_email(&key, "someone@example.com").expect("sealed");
    assert_eq!(decrypt_email(&key, &ct, &nonce), Ok("someone@example.com".to_string()));
    let (ct2, nonce2) = encrypt_email(&key, "someone@example.com").expect("sealed");
    assert_ne!(nonce, nonce2);
    assert_ne!(ct, ct2);
    let fixed = [0x11u8; 12];
    assert_eq!(fixed.len(), NONCE_LEN);
    let (c1, n1) = encrypt_email_with_nonce(&key, &fixed, "x@y.z").expect("sealed");
    let (c2, n2) = encrypt_email_with_nonce(&key, &fixed, "x@y.z").expect("sealed");
    assert_eq!((c1.clone(), n1.clone()), (c2, n2));
    assert_eq!(n1, "ERERERERERERERER");
    assert_eq!(decrypt_email(&key, &c1, &n1), Ok("x@y.z".to_string()));
}

#[test]
fn decrypt_reports_each_failure() {
    let key = [3u8; 32];
    let (ct, nonce) = encrypt_email_with_nonce(&key, &[5u8; 12], "a@b.c").expect("sealed");
    assert_eq!(decrypt_email(&key, &ct, "***"), Err(AccountError::Base64));
    assert_eq!(decrypt_email(&key, "***", &nonce), Err(AccountError::Base64));
    assert_eq!(decrypt_email(&key, &ct, "AAAA"), Err(AccountError::NonceLength));
    assert_eq!(decrypt_email(&key, &ct, ""), Err(AccountError::NonceLength));
    assert_eq!(decrypt_email(&[4u8; 32], &ct, &nonce), Err(AccountError::Decrypt));
    assert_eq!(decrypt_email(&key, "AAAA", &nonce), Err(AccountError::Decrypt));
    // Bytes that are no UTF-8, sealed directly with the cipher.
    let cipher = aes_gcm::Aes256Gcm::new((&key).into());
    let sealed = cipher.encrypt(aes_gcm::Nonce::from_slice(&[5u8; 12]), &[0xffu8, 0xfe][..]).expect("sealed");
    let text = base64::engine::general_purpose::STANDARD.encode(sealed);
    assert_eq!(decrypt_email(&key, &text, &nonce), Err(AccountError::Utf8));
}

#[test]
fn password_hashes_verify() {
    let h1 = hash_password("hunter2").expect("hash");
    let h2 = hash_password("hunter2").expect("hash");
    assert_ne!(h1, h2);
    // A salt of 16 bytes is 22 characters of unpadded base64.
    assert_eq!(SALT_LEN, 16);
    assert_eq!(h1.split('$').nth(4).map(|salt| salt.len()), Some(22));
    assert!(h1.starts_with("$argon2id$"));
    assert_eq!(verify_password("hunter2", &h1), Ok(true));
    assert_eq!(verify_password("hunter3", &h1), Ok(false));
    assert_eq!(verify_password("hunter2", "garbage"), Err(AccountError::PasswordHash));
    let fixed = hash_password_with_salt("hunter2", "c29tZXNhbHRzb21lc2FsdA").expect("hash");
    assert_eq!(fixed, hash_password_with_salt("hunter2", "c29tZXNhbHRzb21lc2FsdA").expect("hash"));
    assert!(fixed.contains("$c29tZXNhbHRzb21lc2FsdA$"));
    assert_eq!(verify_password("hunter2", &fixed), Ok(true));
    assert_eq!(hash_password_with_salt("hunter2", "!"), Err(AccountError::PasswordHash));
}
