use user_registry::CreateUserInput;
use user_registry::DateDmy;
use user_registry::MyUserService;
use user_registry::UserError;

fn sample_input(username: &str, email: &str, mobile: &str) -> CreateUserInput {
    CreateUserInput {
        username: username.to_string(),
        email: email.to_string(),
        password: "hunter2".to_string(),
        dob: "15-08-1995".to_string(),
        mobile_number: mobile.to_string(),
    }
}

#[test]
fn create_then_get_round_trip() {
    let mut service = MyUserService::new();
    let input = sample_input("alice", "alice@example.com", "9876543210");
    let v = service.create_user(&input).unwrap();

    assert_eq!(v.username, "alice");
    assert_eq!(v.email, "alice@example.com");
    assert_eq!(v.mobile_number, "9876543210");
    assert_eq!(v.dob, DateDmy { year: 1995, month: 8, day: 15 });
    assert_eq!(v.id.len(), 36);
    assert_eq!(v.credential_hash.len(), 60);
    assert_ne!(v.credential_hash, "hunter2");
    assert_eq!(v.wallet_address.len(), 42);
    assert!(v.wallet_address.starts_with("0x"));

    let g = service.get_user(&v.id).unwrap();
    assert_eq!(g.id, v.id);
    assert_eq!(g.username, v.username);
    assert_eq!(g.email, v.email);
    assert_eq!(g.credential_hash, v.credential_hash);
    assert_eq!(g.dob, v.dob);
    assert_eq!(g.mobile_number, v.mobile_number);
    assert_eq!(g.wallet_address, v.wallet_address);
}

#[test]
fn get_accepts_uppercase_form_of_id() {
    let mut service = MyUserService::new();
    let v = service.create_user(&sample_input("carol", "carol@example.com", "111")).unwrap();
    let g = service.get_user(&v.id.to_uppercase()).unwrap();
    assert_eq!(g.username, "carol");
}

#[test]
fn conflict_on_username_alone() {
    let mut service = MyUserService::new();
    service.create_user(&sample_input("alice", "alice@example.com", "111")).unwrap();
    let r = service.create_user(&sample_input("alice", "other@example.com", "222"));
    assert_eq!(r.unwrap_err(), UserError::ConflictError);
    assert_eq!(service.user_count(), 1);
}

#[test]
fn conflict_on_email_alone() {
    let mut service = MyUserService::new();
    service.create_user(&sample_input("alice", "alice@example.com", "111")).unwrap();
    let r = service.create_user(&sample_input("bob", "alice@example.com", "222"));
    assert_eq!(r.unwrap_err(), UserError::ConflictError);
}

#[test]
fn conflict_on_mobile_alone() {
    let mut service = MyUserService::new();
    service.create_user(&sample_input("alice", "alice@example.com", "111")).unwrap();
    let r = service.create_user(&sample_input("bob", "bob@example.com", "111"));
    assert_eq!(r.unwrap_err(), UserError::ConflictError);
}

#[test]
fn no_conflict_when_no_unique_field_matches() {
    let mut service = MyUserService::new();
    service.create_user(&sample_input("alice", "alice@example.com", "111")).unwrap();
    // Same password and same date of birth resemble the stored record,
    // but none of the three unique fields matches.
    let r = service.create_user(&sample_input("bob", "bob@example.com", "222"));
    assert!(r.is_ok());
    assert_eq!(service.user_count(), 2);
}

#[test]
fn invalid_month_and_day_rejected_without_side_effect() {
    let mut service = MyUserService::new();
    let mut input = sample_input("alice", "alice@example.com", "111");
    input.dob = "2020-13-40".to_string();
    let r = service.create_user(&input);
    assert_eq!(r.unwrap_err(), UserError::ValidationError);
    assert_eq!(service.user_count(), 0);
}

#[test]
fn nonexistent_calendar_day_rejected() {
    let mut service = MyUserService::new();
    let mut input = sample_input("alice", "alice@example.com", "111");
    input.dob = "31-02-2001".to_string();
    let r = service.create_user(&input);
    assert_eq!(r.unwrap_err(), UserError::ValidationError);
    assert_eq!(service.user_count(), 0);
}

#[test]
fn get_with_malformed_id_is_validation_error() {
    let service = MyUserService::new();
    let r = service.get_user("not-an-identifier");
    assert_eq!(r.unwrap_err(), UserError::ValidationError);
}

#[test]
fn get_with_unassigned_id_is_not_found() {
    let mut service = MyUserService::new();
    service.create_user(&sample_input("alice", "alice@example.com", "111")).unwrap();
    let r = service.get_user("00000000-0000-0000-0000-000000000000");
    assert_eq!(r.unwrap_err(), UserError::NotFoundError);
}

#[test]
fn repeated_identical_requests_complete_once() {
    let mut service = MyUserService::new();
    let input = sample_input("alice", "alice@example.com", "111");
    let mut completed = 0;
    let mut conflicts = 0;
    for _ in 0..5 {
        match service.create_user(&input) {
            Ok(_) => completed += 1,
            Err(UserError::ConflictError) => conflicts += 1,
            Err(e) => panic!("unexpected error {:?}", e),
        }
    }
    assert_eq!(completed, 1);
    assert_eq!(conflicts, 4);
    assert_eq!(service.user_count(), 1);
}
