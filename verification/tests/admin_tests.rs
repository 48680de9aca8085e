use bubble_flexrouter::admin::{
    admin_ping_reply, apply_register_cell, apply_unregister_cell, make_bubble_registration,
    register_precheck, register_reply, registration_url, status_url, unregister_precheck,
    unregister_reply, validate_admin_registration, AdminRegistration, AdminUnregistration,
    BubbleInternalRegistration, BubbleRegistration, RegisterOutcome,
};
use bubble_flexrouter::pass::{hash_password, is_correct_password};

fn full_registration() -> AdminRegistration {
    AdminRegistration {
        password: Some(String::from("hunter2")),
        session: Some(String::from("session-cookie")),
        bubble: Some(String::from("bubble.example.com")),
        ip: Some(String::from("192.168.1.7")),
    }
}

#[test]
fn new_registration_is_empty() {
    let r = AdminRegistration::new();
    assert!(r.password.is_none());
    assert!(r.session.is_none());
    assert!(r.bubble.is_none());
    assert!(r.ip.is_none());
}

#[test]
fn validate_missing_field() {
    let mut reg = full_registration();
    reg.session = None;
    match validate_admin_registration(reg) {
        Err(e) => assert_eq!(e, "required field not found"),
        Ok(_) => panic!("a missing field must be rejected"),
    }
}

#[test]
fn validate_public_ip() {
    let mut reg = full_registration();
    reg.ip = Some(String::from("8.8.8.8"));
    match validate_admin_registration(reg) {
        Err(e) => assert_eq!(e, "ip was invalid"),
        Ok(_) => panic!("a public address must be rejected"),
    }
}

#[test]
fn validate_accepts_private() {
    let v = validate_admin_registration(full_registration()).expect("valid registration");
    assert_eq!(v.password, "hunter2");
    assert_eq!(v.session, "session-cookie");
    assert_eq!(v.bubble, "bubble.example.com");
    assert_eq!(v.ip, "192.168.1.7");
}

#[test]
fn password_round_trip() {
    let hash = hash_password(&String::from("hunter2")).expect("hashing succeeds");
    assert_eq!(is_correct_password(String::from("hunter2"), hash.clone()).unwrap(), true);
    assert_eq!(is_correct_password(String::from("wrong"), hash).unwrap(), false);
}

#[test]
fn password_bad_stored_hash() {
    assert!(is_correct_password(String::from("x"), String::from("not a bcrypt hash")).is_err());
}

#[test]
fn register_precheck_rejections() {
    let hash = hash_password(&String::from("hunter2")).expect("hashing succeeds");

    let mut missing = full_registration();
    missing.bubble = None;
    match register_precheck(missing, &hash) {
        Err(rep) => {
            assert_eq!(rep.status, 401);
            assert_eq!(rep.body, "invalid request object\n");
        }
        Ok(_) => panic!("missing fields must be rejected"),
    }

    let mut wrong = full_registration();
    wrong.password = Some(String::from("not-hunter2"));
    match register_precheck(wrong, &hash) {
        Err(rep) => {
            assert_eq!(rep.status, 401);
            assert_eq!(rep.body, "password was incorrect\n");
        }
        Ok(_) => panic!("a wrong password must be rejected"),
    }

    match register_precheck(full_registration(), &String::from("garbage")) {
        Err(rep) => {
            assert_eq!(rep.status, 401);
            assert_eq!(rep.body, "error verifying password\n");
        }
        Ok(_) => panic!("an unreadable stored hash must be reported"),
    }
}

#[test]
fn register_precheck_accepts() {
    let hash = hash_password(&String::from("hunter2")).expect("hashing succeeds");
    let v = register_precheck(full_registration(), &hash).expect("correct password passes");
    assert_eq!(v.ip, "192.168.1.7");
}

#[test]
fn unregister_precheck_cases() {
    let hash = hash_password(&String::from("hunter2")).expect("hashing succeeds");
    let no_pass = AdminUnregistration { password: None };
    let rep = unregister_precheck(&no_pass, &hash).expect("no password is rejected");
    assert_eq!(rep.status, 401);
    assert_eq!(rep.body, "no password\n");

    let wrong = AdminUnregistration { password: Some(String::from("nope")) };
    let rep = unregister_precheck(&wrong, &hash).expect("wrong password is rejected");
    assert_eq!(rep.status, 401);
    assert_eq!(rep.body, "password was incorrect\n");

    let right = AdminUnregistration { password: Some(String::from("hunter2")) };
    assert!(unregister_precheck(&right, &hash).is_none());
}

#[test]
fn registration_cell_lifecycle() {
    let mut cell: Option<AdminRegistration> = None;
    let stop_old = apply_register_cell(&mut cell, full_registration());
    assert!(!stop_old);
    assert!(cell.is_some());
    // Registering again over an installed registration tears the old one
    // down first.
    let stop_old = apply_register_cell(&mut cell, full_registration());
    assert!(stop_old);
    let was_registered = apply_unregister_cell(&mut cell);
    assert!(was_registered);
    assert!(cell.is_none());
    assert!(!apply_unregister_cell(&mut cell));
}

#[test]
fn controller_urls() {
    assert_eq!(
        registration_url(&String::from("bubble.example.com")),
        "https://bubble.example.com:1443/api/me/flexRouters"
    );
    assert_eq!(
        status_url(&String::from("bubble.example.com"), &String::from("192.168.1.7")),
        "https://bubble.example.com/api/me/flexRouters/192.168.1.7/status"
    );
}

#[test]
fn bubble_registration_fields() {
    let reg = make_bubble_registration(
        &String::from("ssh-ed25519 AAAA pub"),
        String::from("192.168.1.7"),
        &String::from("token-token-token"),
    );
    assert_eq!(reg.key, "ssh-ed25519 AAAA pub");
    assert_eq!(reg.ip, "192.168.1.7");
    assert_eq!(reg.auth_token, "token-token-token");
    let internal = BubbleInternalRegistration::new(
        &reg,
        String::from("bubble.example.com"),
        String::from("session-cookie"),
    );
    assert_eq!(internal.ip, "192.168.1.7");
    assert_eq!(internal.bubble, "bubble.example.com");
    assert_eq!(internal.session, "session-cookie");
}

#[test]
fn register_replies() {
    let rep = register_reply(&RegisterOutcome::Spawned);
    assert_eq!(rep.status, 200);
    assert_eq!(rep.body, "successfully registered with bubble\n");
    let rep = register_reply(&RegisterOutcome::TransportError);
    assert_eq!(rep.status, 412);
    assert_eq!(rep.body, "error registering with bubble\n");
    let rep = register_reply(&RegisterOutcome::HttpError);
    assert_eq!(rep.status, 412);
    assert_eq!(rep.body, "error registering with bubble\n");
    let rep = register_reply(&RegisterOutcome::BadResponseBody);
    assert_eq!(rep.status, 412);
    assert_eq!(rep.body, "error registering with bubble, error parsing response\n");
    let rep = register_reply(&RegisterOutcome::SpawnFailed);
    assert_eq!(rep.status, 412);
    assert_eq!(rep.body, "error registering with bubble, error spawning ssh\n");
}

#[test]
fn fixed_replies() {
    let rep = unregister_reply();
    assert_eq!(rep.status, 200);
    assert_eq!(rep.body, "successfully unregistered from bubble\n");
    let rep = admin_ping_reply();
    assert_eq!(rep.status, 200);
    assert_eq!(rep.body, "bubble-flexrouter is running\n");
}

#[test]
fn bubble_registration_struct_is_open() {
    let b = BubbleRegistration {
        key: String::from("k"),
        ip: String::from("10.0.0.1"),
        auth_token: String::from("t"),
    };
    assert_eq!(b.ip, "10.0.0.1");
}
