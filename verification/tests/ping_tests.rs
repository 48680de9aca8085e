use bubble_flexrouter::ping::{now, Ping};
use bubble_flexrouter::proxy::handle_proxy_ping_at;

fn secret() -> String {
    String::from("0123456789abcdefghijklmnopqrstuvwxyzABCDEFGHIJKLMN")
}

#[test]
fn known_digest() {
    let token = String::from("sharedsecret");
    let p = Ping::from_parts(12345, String::from("mysalt"), &token);
    assert_eq!(p.time, 12345);
    assert_eq!(p.salt, "mysalt");
    assert_eq!(
        p.hash,
        "03dbd42497bf8a2141a92687d1d34fa169726467c873d3962259020d3be9be93"
    );
}

#[test]
fn fresh_ping_verifies_in_window() {
    let token = secret();
    let base: u64 = 1_600_000_000_000;
    let p = Ping::from_parts(base, String::from("somesalt"), &token);
    assert!(p.verify_at(&token, base));
    assert!(p.verify_at(&token, base + 29_000));
    assert!(p.verify_at(&token, base + 30_000));
}

#[test]
fn stale_ping_fails() {
    let token = secret();
    let base: u64 = 1_600_000_000_000;
    let p = Ping::from_parts(base, String::from("somesalt"), &token);
    assert!(!p.verify_at(&token, base + 31_000));
}

#[test]
fn future_ping_window() {
    let token = secret();
    let base: u64 = 1_600_000_000_000;
    // Stamped six seconds ahead of the verifier's clock: rejected.
    let ahead6 = Ping::from_parts(base + 6_000, String::from("somesalt"), &token);
    assert!(!ahead6.verify_at(&token, base));
    // Four seconds ahead: inside the tolerated skew.
    let ahead4 = Ping::from_parts(base + 4_000, String::from("somesalt"), &token);
    assert!(ahead4.verify_at(&token, base));
}

#[test]
fn wrong_secret_fails() {
    let token = secret();
    let mut other = secret();
    other.push('x');
    let base: u64 = 1_600_000_000_000;
    let p = Ping::from_parts(base, String::from("somesalt"), &token);
    assert!(!p.verify_at(&other, base));
}

#[test]
fn altered_salt_fails() {
    let token = secret();
    let base: u64 = 1_600_000_000_000;
    let p = Ping::from_parts(base, String::from("somesalt"), &token);
    let tampered = Ping::from_wire(p.time, String::from("othersalt"), p.hash.clone());
    assert!(!tampered.verify_at(&token, base));
}

#[test]
fn proxy_ping_altered_salt_is_400() {
    let token = secret();
    let base: u64 = 1_600_000_000_000;
    let p = Ping::from_parts(base, String::from("somesalt"), &token);
    let tampered = Ping::from_wire(p.time, String::from("xsalt"), p.hash.clone());
    match handle_proxy_ping_at(&tampered, &token, base) {
        Ok(_) => panic!("a tampered token must be refused"),
        Err(rep) => {
            assert_eq!(rep.status, 400);
            assert_eq!(rep.body, "invalid ping hash\n");
        }
    }
}

#[test]
fn proxy_ping_valid_gets_pong() {
    let token = secret();
    let base: u64 = 1_600_000_000_000;
    let p = Ping::from_parts(base, String::from("somesalt"), &token);
    match handle_proxy_ping_at(&p, &token, base + 10_000) {
        Ok(pong) => {
            assert_eq!(pong.salt.len(), 50);
            assert!(pong
                .salt
                .chars()
                .all(|c| c.is_ascii_alphanumeric()));
        }
        Err(_) => panic!("a fresh token must be accepted"),
    }
}

#[test]
fn issue_and_verify_with_real_clock() {
    let token = secret();
    let p = Ping::new(&token);
    assert_eq!(p.salt.len(), 50);
    assert!(p.verify(&token));
    assert!(!p.verify(&String::from("anothersecretanothersecretanothersecret")));
}

#[test]
fn clock_is_past_epoch() {
    // The agent was written well after 2020.
    assert!(now() > 1_500_000_000_000);
}
