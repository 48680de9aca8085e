//! The control-plane ping token: a timestamped, salted hash of a shared
//! secret. A token proves knowledge of the secret at a point in time
//! without carrying the secret itself; verification recomputes the digest
//! and enforces an asymmetric freshness window.

use rand::distr::SampleString;
use vstd::prelude::*;

use crate::digest::{hex_lower, hex_of, sha256_digest, sha256_of};
use crate::text::{dec_bytes_of, lemma_dec_chars_ascii, u64_to_string};
use crate::util::now_micros;
use vstd::utf8::encode_utf8;

verus! {

/// Oldest acceptable token, in milliseconds behind the verifier's clock.
pub const MAX_PING_AGE: i128 = 30000;

/// How far ahead of the verifier's clock a token's stamp may lie.
pub const MIN_PING_AGE: i128 = -5000;

#[derive(Clone, Debug)]
pub struct Ping {
    pub time: u64,
    pub salt: String,
    pub hash: String,
}

/// Milliseconds since the Unix epoch.
pub fn now() -> u64 {
    #[verifier::truncate]
    let ms = (now_micros() / 1000) as u64;
    ms
}

/// The bytes that are hashed: `salt ":" time ":" secret`, with the time
/// written in decimal.
pub open spec fn ping_message_bytes(salt: Seq<char>, time: u64, token: Seq<char>) -> Seq<u8> {
    encode_utf8(salt) + seq![58u8] + dec_bytes_of(time as nat) + seq![58u8] + encode_utf8(token)
}

/// The hex digest a well-formed token carries for these parts.
pub open spec fn ping_digest(salt: Seq<char>, time: u64, token: Seq<char>) -> Seq<char> {
    hex_of(sha256_of(ping_message_bytes(salt, time, token)))
}

pub open spec fn ping_window_ok(time: u64, now_ms: u64) -> bool {
    let age = now_ms as int - time as int;
    MIN_PING_AGE as int <= age && age <= MAX_PING_AGE as int
}

/// What it means for a token to pass verification at instant `now_ms`.
pub open spec fn ping_verifies(p: Ping, token: Seq<char>, now_ms: u64) -> bool {
    ping_window_ok(p.time, now_ms) && p.hash@ == ping_digest(p.salt@, p.time, token)
}

fn ping_message(salt: &String, time: u64, token: &String) -> (r: Vec<u8>)
    ensures
        r@ == ping_message_bytes(salt@, time, token@),
{
    let mut msg = salt.as_str().as_bytes_vec();
    msg.push(58u8);
    let t = u64_to_string(time);
    let mut tb = t.as_str().as_bytes_vec();
    proof {
        lemma_dec_chars_ascii(time as nat);
    }
    msg.append(&mut tb);
    msg.push(58u8);
    let mut kb = token.as_str().as_bytes_vec();
    msg.append(&mut kb);
    assert(msg@ =~= ping_message_bytes(salt@, time, token@));
    msg
}

fn hash_token_with_salt(auth_token: &String, time: u64, salt: &String) -> (r: String)
    ensures
        r@ == ping_digest(salt@, time, auth_token@),
        r@.len() == 64,
{
    let msg = ping_message(salt, time, auth_token);
    let d = sha256_digest(&msg);
    hex_lower(&d)
}

pub open spec fn is_alnum(c: char) -> bool {
    (48 <= c as u32 && c as u32 <= 57) || (65 <= c as u32 && c as u32 <= 90) || (97 <= c as u32
        && c as u32 <= 122)
}

/// Relies on rand's `Alphanumeric` distribution: exactly the requested
/// number of characters, each drawn from a-z, A-Z and 0-9.
#[verifier::external_body]
fn random_salt() -> (r: String)
    ensures
        r@.len() == 50,
        forall|i: int| 0 <= i < r@.len() ==> is_alnum(#[trigger] r@[i]),
{
    rand::distr::Alphanumeric.sample_string(&mut rand::rng(), 50)
}

impl Ping {
    /// Issue a fresh token for the shared secret: a random 50-character
    /// salt, the current time, and the digest over both.
    pub fn new(auth_token: &String) -> (p: Ping)
        ensures
            p.hash@ == ping_digest(p.salt@, p.time, auth_token@),
            p.hash@.len() == 64,
            p.salt@.len() == 50,
            forall|i: int| 0 <= i < p.salt@.len() ==> is_alnum(#[trigger] p.salt@[i]),
    {
        let salt = random_salt();
        let time = now();
        let hash = hash_token_with_salt(auth_token, time, &salt);
        Ping { time, salt, hash }
    }

    /// A token for a chosen time and salt, carrying the right digest.
    pub fn from_parts(time: u64, salt: String, auth_token: &String) -> (p: Ping)
        ensures
            p.time == time,
            p.salt@ == salt@,
            p.hash@ == ping_digest(salt@, time, auth_token@),
            p.hash@.len() == 64,
    {
        let hash = hash_token_with_salt(auth_token, time, &salt);
        Ping { time, salt, hash }
    }

    /// A token exactly as it came off the wire, digest unchecked.
    pub fn from_wire(time: u64, salt: String, hash: String) -> (p: Ping)
        ensures
            p.time == time,
            p.salt == salt,
            p.hash == hash,
    {
        Ping { time, salt, hash }
    }

    /// Whether the token passes at instant `now_ms`: the digest must match
    /// and the stamp must lie inside the acceptance window.
    pub fn verify_at(&self, auth_token: &String, now_ms: u64) -> (r: bool)
        ensures
            r == ping_verifies(*self, auth_token@, now_ms),
    {
        let age: i128 = now_ms as i128 - self.time as i128;
        if age > MAX_PING_AGE {
            false
        } else if age < MIN_PING_AGE {
            false
        } else {
            let hash = hash_token_with_salt(auth_token, self.time, &self.salt);
            self.hash == hash
        }
    }

    /// Verification against the clock now. A true result means the digest
    /// is the one the secret yields for this salt and stamp.
    pub fn verify(&self, auth_token: &String) -> (r: bool)
        ensures
            r ==> self.hash@ == ping_digest(self.salt@, self.time, auth_token@),
    {
        let now_ms = now();
        self.verify_at(auth_token, now_ms)
    }
}

/// A token issued for a secret verifies against that same secret at any
/// instant inside the acceptance window.
pub proof fn lemma_issue_then_verify(p: Ping, token: Seq<char>, now_ms: u64)
    requires
        p.hash@ == ping_digest(p.salt@, p.time, token),
        ping_window_ok(p.time, now_ms),
    ensures
        ping_verifies(p, token, now_ms),
{
}

} // verus!
