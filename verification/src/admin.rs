//! The admin control plane: register, unregister and ping. These
//! functions take the decoded request and the stored credential and
//! return exactly the reply the wire protocol prescribes; the HTTP
//! server, the controller call and the JSON codec run in the shell.

use vstd::prelude::*;

use crate::net::{is_valid_ip, spec_is_private_ip};
use crate::pass::{bcrypt_check, is_correct_password};
use crate::text::trimmed;

verus! {

/// A registration request as decoded off the wire; every field optional
/// until validated.
#[derive(Clone, Debug)]
pub struct AdminRegistration {
    pub password: Option<String>,
    pub session: Option<String>,
    pub bubble: Option<String>,
    pub ip: Option<String>,
}

impl AdminRegistration {
    pub fn new() -> (r: AdminRegistration)
        ensures
            r.password is None,
            r.session is None,
            r.bubble is None,
            r.ip is None,
    {
        AdminRegistration { password: None, session: None, bubble: None, ip: None }
    }
}

#[derive(Clone, Debug)]
pub struct AdminUnregistration {
    pub password: Option<String>,
}

/// A registration whose fields are all present and whose address passed
/// the private-range check.
#[derive(Clone, Debug)]
pub struct ValidAdminRegistration {
    pub password: String,
    pub session: String,
    pub bubble: String,
    pub ip: String,
}

/// The body of the PUT that registers this agent with the controller.
pub struct BubbleRegistration {
    pub key: String,
    pub ip: String,
    pub auth_token: String,
}

/// What of a registration the checker needs later.
pub struct BubbleInternalRegistration {
    pub ip: String,
    pub bubble: String,
    pub session: String,
}

impl BubbleInternalRegistration {
    pub fn new(reg: &BubbleRegistration, bubble: String, session: String) -> (r:
        BubbleInternalRegistration)
        ensures
            r.ip@ == reg.ip@,
            r.bubble@ == bubble@,
            r.session@ == session@,
    {
        BubbleInternalRegistration { ip: reg.ip.clone(), bubble, session }
    }
}

/// The controller's answer to a registration: the remote listen port
/// and the host key to pin.
pub struct BubbleRegistrationResponse {
    pub port: u16,
    pub host_key: String,
}

pub open spec fn spec_reg_missing_field(reg: AdminRegistration) -> bool {
    reg.ip is None || reg.password is None || reg.bubble is None || reg.session is None
}

/// All four fields must be present and the address must be private.
pub fn validate_admin_registration(reg: AdminRegistration) -> (r: Result<
    ValidAdminRegistration,
    String,
>)
    ensures
        spec_reg_missing_field(reg) ==> (r matches Err(e) && e@ == "required field not found"@),
        !spec_reg_missing_field(reg) && !spec_is_private_ip(reg.ip->0@) ==> (r matches Err(e) && e@
            == "ip was invalid"@),
        !spec_reg_missing_field(reg) && spec_is_private_ip(reg.ip->0@) ==> (r matches Ok(v) && {
            &&& v.password@ == reg.password->0@
            &&& v.session@ == reg.session->0@
            &&& v.bubble@ == reg.bubble->0@
            &&& v.ip@ == reg.ip->0@
        }),
{
    match (reg.ip, reg.password, reg.bubble, reg.session) {
        (Some(ip), Some(password), Some(bubble), Some(session)) => {
            if !is_valid_ip(&ip) {
                Err(String::from_str("ip was invalid"))
            } else {
                Ok(ValidAdminRegistration { password, session, bubble, ip })
            }
        },
        _ => Err(String::from_str("required field not found")),
    }
}

/// A reply on the admin plane: the status code and the body text.
#[derive(Debug)]
pub struct AdminReply {
    pub status: u16,
    pub body: String,
}

/// Validation and password check for a register call. A rejection is a
/// 401 with the body the protocol prescribes; the call may proceed only
/// when the fields are valid and bcrypt accepts the password.
pub fn register_precheck(reg: AdminRegistration, hashed_password: &String) -> (r: Result<
    ValidAdminRegistration,
    AdminReply,
>)
    ensures
        r matches Err(rep) ==> rep.status == 401,
        spec_reg_missing_field(reg) || !spec_is_private_ip(reg.ip->0@) ==> (r matches Err(rep)
            && rep.body@ == "invalid request object\n"@),
        !spec_reg_missing_field(reg) && spec_is_private_ip(reg.ip->0@) ==> match bcrypt_check(
            trimmed(reg.password->0@),
            trimmed(hashed_password@),
        ) {
            None => (r matches Err(rep) && rep.body@ == "error verifying password\n"@),
            Some(false) => (r matches Err(rep) && rep.body@ == "password was incorrect\n"@),
            Some(true) => (r matches Ok(v) && {
                &&& v.password@ == reg.password->0@
                &&& v.session@ == reg.session->0@
                &&& v.bubble@ == reg.bubble->0@
                &&& v.ip@ == reg.ip->0@
            }),
        },
{
    let validated = match validate_admin_registration(reg) {
        Ok(v) => v,
        Err(_) => {
            return Err(
                AdminReply { status: 401, body: String::from_str("invalid request object\n") },
            );
        },
    };
    match is_correct_password(validated.password.clone(), hashed_password.clone()) {
        Err(_) => Err(
            AdminReply { status: 401, body: String::from_str("error verifying password\n") },
        ),
        Ok(false) => Err(
            AdminReply { status: 401, body: String::from_str("password was incorrect\n") },
        ),
        Ok(true) => Ok(validated),
    }
}

/// Password check for an unregister call; `None` means it may proceed.
pub fn unregister_precheck(u: &AdminUnregistration, hashed_password: &String) -> (r: Option<
    AdminReply,
>)
    ensures
        r matches Some(rep) ==> rep.status == 401,
        u.password is None ==> (r matches Some(rep) && rep.body@ == "no password\n"@),
        u.password matches Some(p) ==> match bcrypt_check(trimmed(p@), trimmed(hashed_password@)) {
            None => (r matches Some(rep) && rep.body@ == "error verifying password\n"@),
            Some(false) => (r matches Some(rep) && rep.body@ == "password was incorrect\n"@),
            Some(true) => r is None,
        },
{
    let password = match &u.password {
        Some(p) => p.clone(),
        None => {
            return Some(AdminReply { status: 401, body: String::from_str("no password\n") });
        },
    };
    match is_correct_password(password, hashed_password.clone()) {
        Err(_) => Some(
            AdminReply { status: 401, body: String::from_str("error verifying password\n") },
        ),
        Ok(false) => Some(
            AdminReply { status: 401, body: String::from_str("password was incorrect\n") },
        ),
        Ok(true) => None,
    }
}

/// Install a registration in the cell; says whether an old one had to be
/// torn down first.
pub fn apply_register_cell(cell: &mut Option<AdminRegistration>, reg: AdminRegistration) -> (stop_old:
    bool)
    ensures
        *final(cell) == Some(reg),
        stop_old == (*old(cell) is Some),
{
    let stop_old = cell.is_some();
    *cell = Some(reg);
    stop_old
}

/// Clear the cell; says whether anything was installed.
pub fn apply_unregister_cell(cell: &mut Option<AdminRegistration>) -> (was_registered: bool)
    ensures
        *final(cell) is None,
        was_registered == (*old(cell) is Some),
{
    let was_registered = cell.is_some();
    *cell = None;
    was_registered
}

/// The registration body sent to the controller: the agent's public key,
/// the advertised address, and the shared secret.
pub fn make_bubble_registration(ssh_pub_key: &String, ip: String, auth_token: &String) -> (r:
    BubbleRegistration)
    ensures
        r.key@ == ssh_pub_key@,
        r.ip@ == ip@,
        r.auth_token@ == auth_token@,
{
    BubbleRegistration { key: ssh_pub_key.clone(), ip, auth_token: auth_token.clone() }
}

pub open spec fn spec_registration_url(bubble: Seq<char>) -> Seq<char> {
    "https://"@ + bubble + ":1443/api/me/flexRouters"@
}

/// Where the registration PUT goes.
pub fn registration_url(bubble: &String) -> (r: String)
    ensures
        r@ == spec_registration_url(bubble@),
{
    let mut s = String::from_str("https://");
    s.append(bubble.as_str());
    s.append(":1443/api/me/flexRouters");
    s
}

pub open spec fn spec_status_url(bubble: Seq<char>, ip: Seq<char>) -> Seq<char> {
    "https://"@ + bubble + "/api/me/flexRouters/"@ + ip + "/status"@
}

/// Where the checker polls the tunnel status.
pub fn status_url(bubble: &String, ip: &String) -> (r: String)
    ensures
        r@ == spec_status_url(bubble@, ip@),
{
    let mut s = String::from_str("https://");
    s.append(bubble.as_str());
    s.append("/api/me/flexRouters/");
    s.append(ip.as_str());
    s.append("/status");
    s
}

/// How a register call that passed the prechecks ended.
pub enum RegisterOutcome {
    /// The PUT to the controller never completed.
    TransportError,
    /// The controller answered with a failure status.
    HttpError,
    /// The controller answered OK but the body did not decode.
    BadResponseBody,
    /// The tunnel child could not be launched.
    SpawnFailed,
    /// The tunnel is up.
    Spawned,
}

/// The reply for each outcome: 200 on success, 412 for every
/// controller-side or spawn failure, with the prescribed body.
pub fn register_reply(o: &RegisterOutcome) -> (r: AdminReply)
    ensures
        r.status == (match o {
            RegisterOutcome::Spawned => 200u16,
            _ => 412u16,
        }),
        r.body@ == (match o {
            RegisterOutcome::TransportError => "error registering with bubble\n"@,
            RegisterOutcome::HttpError => "error registering with bubble\n"@,
            RegisterOutcome::BadResponseBody => "error registering with bubble, error parsing response\n"@,
            RegisterOutcome::SpawnFailed => "error registering with bubble, error spawning ssh\n"@,
            RegisterOutcome::Spawned => "successfully registered with bubble\n"@,
        }),
{
    match o {
        RegisterOutcome::TransportError => AdminReply {
            status: 412,
            body: String::from_str("error registering with bubble\n"),
        },
        RegisterOutcome::HttpError => AdminReply {
            status: 412,
            body: String::from_str("error registering with bubble\n"),
        },
        RegisterOutcome::BadResponseBody => AdminReply {
            status: 412,
            body: String::from_str("error registering with bubble, error parsing response\n"),
        },
        RegisterOutcome::SpawnFailed => AdminReply {
            status: 412,
            body: String::from_str("error registering with bubble, error spawning ssh\n"),
        },
        RegisterOutcome::Spawned => AdminReply {
            status: 200,
            body: String::from_str("successfully registered with bubble\n"),
        },
    }
}

/// Unregister always acknowledges once the password passed, whether or
/// not anything was installed.
pub fn unregister_reply() -> (r: AdminReply)
    ensures
        r.status == 200,
        r.body@ == "successfully unregistered from bubble\n"@,
{
    AdminReply { status: 200, body: String::from_str("successfully unregistered from bubble\n") }
}

/// The admin liveness probe.
pub fn admin_ping_reply() -> (r: AdminReply)
    ensures
        r.status == 200,
        r.body@ == "bubble-flexrouter is running\n"@,
{
    AdminReply { status: 200, body: String::from_str("bubble-flexrouter is running\n") }
}

} // verus!
