use user_registry::MyUserService;
use user_registry::MyWalletService;
use user_registry::UserError;
use user_registry::CreateUserInput;
use user_registry::DateDmy;
use user_registry::credential_matches;
use user_registry::generate_wallet;
use user_registry::hash_credential;
use user_registry::http_status_of;
use user_registry::parse_dob;
use user_registry::sanitize_view;

#[test]
fn hashing_twice_differs_and_both_verify() {
    let h1 = hash_credential("hunter2").unwrap();
    let h2 = hash_credential("hunter2").unwrap();
    assert_ne!(h1, h2);
    assert!(h1.starts_with("$2b$12$"));
    assert!(h2.starts_with("$2b$12$"));
    assert!(credential_matches("hunter2", &h1));
    assert!(credential_matches("hunter2", &h2));
    assert!(!credential_matches("wrong-password", &h1));
    assert!(!credential_matches("hunter2", "not-a-stored-hash"));
}

#[test]
fn hashing_accepts_unconstrained_plaintext() {
    let long = "x".repeat(100);
    let h = hash_credential(&long).unwrap();
    assert_eq!(h.len(), 60);
    assert!(credential_matches(&long, &h));

    let empty = hash_credential("").unwrap();
    assert!(credential_matches("", &empty));
    assert!(!credential_matches("nonempty", &empty));
}

#[test]
fn generated_key_pairs_are_well_shaped_and_fresh() {
    let (addr1, key1) = generate_wallet();
    let (addr2, key2) = generate_wallet();
    assert_eq!(addr1.len(), 42);
    assert!(addr1.starts_with("0x"));
    assert_eq!(key1.len(), 64);
    assert!(key1.chars().all(|c| c.is_ascii_hexdigit()));
    assert_ne!(addr1, addr2);
    assert_ne!(key1, key2);
}

#[test]
fn date_parsing_exact_values() {
    assert_eq!(parse_dob("01-01-2000"), Some(DateDmy { year: 2000, month: 1, day: 1 }));
    assert_eq!(parse_dob("29-02-2020"), Some(DateDmy { year: 2020, month: 2, day: 29 }));
    assert_eq!(parse_dob("29-02-2019"), None);
    assert_eq!(parse_dob("2000-01-01"), None);
    assert_eq!(parse_dob(""), None);
}

#[test]
fn sanitized_payload_drops_credential_hash() {
    let mut service = MyUserService::new();
    let input = CreateUserInput {
        username: "dora".to_string(),
        email: "dora@example.com".to_string(),
        password: "pw".to_string(),
        dob: "02-03-1984".to_string(),
        mobile_number: "333".to_string(),
    };
    let v = service.create_user(&input).unwrap();
    let p = sanitize_view(&v);
    assert_eq!(p.id, v.id);
    assert_eq!(p.username, v.username);
    assert_eq!(p.email, v.email);
    assert_eq!(p.dob, v.dob);
    assert_eq!(p.mobile_number, v.mobile_number);
    assert_eq!(p.wallet_address, v.wallet_address);
}

#[test]
fn gateway_status_codes() {
    assert_eq!(http_status_of(&UserError::ValidationError), 400);
    assert_eq!(http_status_of(&UserError::ConflictError), 409);
    assert_eq!(http_status_of(&UserError::NotFoundError), 404);
    assert_eq!(http_status_of(&UserError::InternalError), 500);
}

#[test]
fn wallet_record_creation() {
    let mut service = MyWalletService::new();
    let w = service.create_wallet(&"user-7".to_string(), 250).unwrap();
    assert_eq!(w.user_id, "user-7");
    assert_eq!(w.balance, 250);
    assert_eq!(w.id.len(), 36);
    let w2 = service.create_wallet(&"user-7".to_string(), -40).unwrap();
    assert_eq!(w2.balance, -40);
    assert_ne!(w.id, w2.id);
}

#[test]
fn wallet_creation_decides_on_the_drawn_identifier() {
    let nil = "00000000-0000-0000-0000-000000000000".to_string();
    let ones = "11111111-1111-1111-1111-111111111111".to_string();
    let mut service = MyWalletService::new();
    let w = service
        .create_wallet_with_id(&"user-1".to_string(), 10, nil.clone(), 0)
        .unwrap();
    assert_eq!(w.id, nil);
    assert_eq!(w.user_id, "user-1");
    assert_eq!(w.balance, 10);
    // The same identifier again is a primary-key collision; a different
    // identifier for the same user succeeds (no per-user uniqueness).
    let clash = service.create_wallet_with_id(&"user-2".to_string(), 20, nil, 0);
    assert_eq!(clash.unwrap_err(), UserError::InternalError);
    let w2 = service
        .create_wallet_with_id(
            &"user-1".to_string(),
            20,
            ones,
            0x11111111_11111111_11111111_11111111u128,
        )
        .unwrap();
    assert_eq!(w2.balance, 20);
}
