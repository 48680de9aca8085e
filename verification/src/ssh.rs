//! The reverse-tunnel supervisor: a single container, held under one
//! lock by the shell, that owns the ssh child, the parameters needed to
//! respawn it, and the handle and invalidation stamp of the periodic
//! health checker. The decisions live here, verified; the shell performs
//! the returned effects (launch, kill, abort) and reports events back.
//!
//! Child processes and checker tasks are identified by plain handles
//! (`u64`); the shell keeps the real `Child` and task keyed by them.

use vstd::prelude::*;

use crate::text::{dec_chars_of, strip_quotes, u64_to_string, without_quotes};

verus! {

/// Everything needed to (re)launch the tunnel.
#[derive(Clone)]
pub struct TunnelParams {
    pub ip: String,
    pub port: u16,
    pub proxy_port: u16,
    pub bubble: String,
    pub session: String,
    pub host_key: String,
    pub priv_key: String,
}

/// The supervisor container. `child` and `checker` are handles to the
/// ssh process and the checker task the shell runs on this container's
/// behalf; `checker_done_flag` is the microsecond invalidation stamp a
/// surviving checker compares its start time against.
pub struct SshContainer {
    pub child: Option<u64>,
    pub params: Option<TunnelParams>,
    pub checker: Option<u64>,
    pub checker_done_flag: u128,
}

impl SshContainer {
    pub fn new() -> (c: SshContainer)
        ensures
            c.child is None,
            c.params is None,
            c.checker is None,
            c.checker_done_flag == 0,
    {
        SshContainer { child: None, params: None, checker: None, checker_done_flag: 0 }
    }
}

pub open spec fn spec_tunnel_arg(port: u16, proxy_port: u16) -> Seq<char> {
    dec_chars_of(port as nat) + ":127.0.0.1:"@ + dec_chars_of(proxy_port as nat)
}

/// The `-R` argument: remote port forwarded to the local proxy port.
pub fn ssh_tunnel_arg(port: u16, proxy_port: u16) -> (r: String)
    ensures
        r@ == spec_tunnel_arg(port, proxy_port),
{
    let mut s = u64_to_string(port as u64);
    s.append(":127.0.0.1:");
    let p = u64_to_string(proxy_port as u64);
    s.append(p.as_str());
    s
}

pub open spec fn spec_target_arg(bubble: Seq<char>) -> Seq<char> {
    "bubble-flex@"@ + bubble
}

pub fn ssh_target_arg(bubble: &String) -> (r: String)
    ensures
        r@ == spec_target_arg(bubble@),
{
    let mut s = String::from_str("bubble-flex@");
    s.append(bubble.as_str());
    s
}

pub open spec fn spec_known_hosts_arg(host_file: Seq<char>) -> Seq<char> {
    "UserKnownHostsFile="@ + host_file
}

/// The argument vector handed to the ssh binary.
pub open spec fn spec_ssh_args(
    priv_key: Seq<char>,
    port: u16,
    proxy_port: u16,
    bubble: Seq<char>,
    host_file: Seq<char>,
) -> Seq<Seq<char>> {
    seq![
        "-i"@,
        priv_key,
        "-o"@,
        spec_known_hosts_arg(host_file),
        "-o"@,
        "ServerAliveInterval=10"@,
        "-Nn"@,
        "-R"@,
        spec_tunnel_arg(port, proxy_port),
        spec_target_arg(bubble),
    ]
}

pub fn ssh_args(
    priv_key: &String,
    port: u16,
    proxy_port: u16,
    bubble: &String,
    host_file: &String,
) -> (r: Vec<String>)
    ensures
        r.deep_view() == spec_ssh_args(priv_key@, port, proxy_port, bubble@, host_file@),
{
    let mut args: Vec<String> = Vec::new();
    args.push(String::from_str("-i"));
    args.push(priv_key.clone());
    args.push(String::from_str("-o"));
    let mut known_hosts = String::from_str("UserKnownHostsFile=");
    known_hosts.append(host_file.as_str());
    args.push(known_hosts);
    args.push(String::from_str("-o"));
    args.push(String::from_str("ServerAliveInterval=10"));
    args.push(String::from_str("-Nn"));
    args.push(String::from_str("-R"));
    args.push(ssh_tunnel_arg(port, proxy_port));
    args.push(ssh_target_arg(bubble));
    assert(args.deep_view() =~= spec_ssh_args(priv_key@, port, proxy_port, bubble@, host_file@));
    args
}

/// The platforms the agent runs on, as the shell reports them.
#[derive(PartialEq, Eq, Structural, Clone, Copy, Debug)]
pub enum Platform {
    Windows,
    MacOs,
    Linux,
    Other,
}

/// Path of the ssh binary for the platform; none on an unsupported one.
pub fn ssh_command_for(p: &Platform) -> (r: Option<String>)
    ensures
        match p {
            Platform::Windows => r matches Some(c) && c@
                == "C:\\Windows\\System32\\OpenSSH\\ssh.exe"@,
            Platform::MacOs => r matches Some(c) && c@ == "/usr/bin/ssh"@,
            Platform::Linux => r matches Some(c) && c@ == "/usr/bin/ssh"@,
            Platform::Other => r is None,
        },
{
    match p {
        Platform::Windows => Some(String::from_str("C:\\Windows\\System32\\OpenSSH\\ssh.exe")),
        Platform::MacOs => Some(String::from_str("/usr/bin/ssh")),
        Platform::Linux => Some(String::from_str("/usr/bin/ssh")),
        Platform::Other => None,
    }
}

/// Path of the pinned host-key file; none on an unsupported platform.
pub fn host_file_for(p: &Platform) -> (r: Option<String>)
    ensures
        match p {
            Platform::Windows => r matches Some(f) && f@
                == "C:\\Windows\\Temp\\bubble_flex_host_key"@,
            Platform::MacOs => r matches Some(f) && f@ == "/tmp/bubble_flex_host_key"@,
            Platform::Linux => r matches Some(f) && f@ == "/tmp/bubble_flex_host_key"@,
            Platform::Other => r is None,
        },
{
    match p {
        Platform::Windows => Some(String::from_str("C:\\Windows\\Temp\\bubble_flex_host_key")),
        Platform::MacOs => Some(String::from_str("/tmp/bubble_flex_host_key")),
        Platform::Linux => Some(String::from_str("/tmp/bubble_flex_host_key")),
        Platform::Other => None,
    }
}

/// What the shell must do to launch the tunnel: write the pinned host
/// key to `host_file`, then run `command` with `args`.
pub struct SpawnPlan {
    pub host_file: String,
    pub host_key: String,
    pub command: String,
    pub args: Vec<String>,
}

impl SshContainer {
    /// The spawn decision: nothing to do when a child is already
    /// installed, else the full launch plan.
    pub fn spawn_plan(
        &self,
        params: &TunnelParams,
        ssh_command: &String,
        host_file: &String,
    ) -> (r: Option<SpawnPlan>)
        ensures
            r is Some <==> self.child is None,
            r matches Some(p) ==> {
                &&& p.host_file@ == host_file@
                &&& p.host_key@ == params.host_key@
                &&& p.command@ == ssh_command@
                &&& p.args.deep_view() == spec_ssh_args(
                    params.priv_key@,
                    params.port,
                    params.proxy_port,
                    params.bubble@,
                    host_file@,
                )
            },
    {
        if self.child.is_some() {
            None
        } else {
            let args = ssh_args(
                &params.priv_key,
                params.port,
                params.proxy_port,
                &params.bubble,
                host_file,
            );
            Some(
                SpawnPlan {
                    host_file: host_file.clone(),
                    host_key: params.host_key.clone(),
                    command: ssh_command.clone(),
                    args,
                },
            )
        }
    }

    /// Record a successful launch: the child handle, its parameters and
    /// the freshly started checker. The invalidation stamp is untouched.
    pub fn spawn_commit(&mut self, params: TunnelParams, child: u64, checker: u64)
        requires
            old(self).child is None,
        ensures
            final(self).child == Some(child),
            final(self).params == Some(params),
            final(self).checker == Some(checker),
            final(self).checker_done_flag == old(self).checker_done_flag,
    {
        self.child = Some(child);
        self.params = Some(params);
        self.checker = Some(checker);
    }

    /// Record the launch a restarting checker made: the new child under
    /// the same checker. Neither the checker slot nor the stamp moves,
    /// so the running checker stays valid.
    pub fn respawn_commit(&mut self, params: TunnelParams, child: u64)
        requires
            old(self).child is None,
            old(self).checker is Some,
        ensures
            final(self).child == Some(child),
            final(self).params == Some(params),
            final(self).checker == old(self).checker,
            final(self).checker_done_flag == old(self).checker_done_flag,
    {
        self.child = Some(child);
        self.params = Some(params);
    }
}

/// The container after `stop`: the child slot is cleared; when the
/// checker is stopped too, its slot is cleared and the stamp is bumped.
pub open spec fn spec_stop(c: SshContainer, stop_checker: bool, now: u128) -> SshContainer {
    SshContainer {
        child: None,
        params: c.params,
        checker: if stop_checker {
            None
        } else {
            c.checker
        },
        checker_done_flag: if stop_checker {
            now
        } else {
            c.checker_done_flag
        },
    }
}

/// What the shell must do after a `stop`: abort this checker task and
/// kill this child process.
pub struct StopEffects {
    pub abort_checker: Option<u64>,
    pub kill_child: Option<u64>,
}

impl SshContainer {
    /// Tear down: with `stop_checker` the external form (unregister, or a
    /// new register), without it the internal form a restarting checker
    /// uses on itself.
    pub fn stop(&mut self, stop_checker: bool, now: u128) -> (r: StopEffects)
        ensures
            *final(self) == spec_stop(*old(self), stop_checker, now),
            r.kill_child == old(self).child,
            r.abort_checker == if stop_checker {
                old(self).checker
            } else {
                None::<u64>
            },
    {
        let abort_checker = if stop_checker {
            let a = self.checker;
            self.checker = None;
            self.checker_done_flag = now;
            a
        } else {
            None
        };
        let kill_child = self.child;
        self.child = None;
        StopEffects { abort_checker, kill_child }
    }

    /// External teardown, as unregister and a repeated register use it:
    /// the checker is aborted and invalidated, the child is killed.
    pub fn stop_ssh_and_checker(&mut self, now: u128) -> (r: StopEffects)
        ensures
            *final(self) == spec_stop(*old(self), true, now),
            r.kill_child == old(self).child,
            r.abort_checker == old(self).checker,
    {
        self.stop(true, now)
    }

    /// The internal teardown a restarting checker applies to itself:
    /// only the child goes; the checker keeps running.
    pub fn stop_ssh_retain_checker(&mut self, now: u128) -> (r: StopEffects)
        ensures
            *final(self) == spec_stop(*old(self), false, now),
            r.kill_child == old(self).child,
            r.abort_checker is None,
    {
        self.stop(false, now)
    }

    /// The first container access of every checker tick: a stamp newer
    /// than the checker's start time tells it to exit without touching
    /// anything.
    pub fn tick_gate(&self, checker_start: u128) -> (r: bool)
        ensures
            r == (self.checker_done_flag > checker_start),
    {
        self.checker_done_flag > checker_start
    }
}

/// The tunnel status strings the controller replies with.
#[derive(PartialEq, Eq, Structural, Clone, Copy, Debug)]
pub enum TunnelStatus {
    Active,
    NotYetAvailable,
    Unreachable,
    Deleted,
    Unknown,
}

/// The reply body with its quotes removed, read as a status.
pub open spec fn spec_status_of(body: Seq<char>) -> TunnelStatus {
    let s = without_quotes(body);
    if s == "active"@ {
        TunnelStatus::Active
    } else if s == "none"@ {
        TunnelStatus::NotYetAvailable
    } else if s == "unreachable"@ {
        TunnelStatus::Unreachable
    } else if s == "deleted"@ {
        TunnelStatus::Deleted
    } else {
        TunnelStatus::Unknown
    }
}

pub fn interpret_status(body: &String) -> (r: TunnelStatus)
    ensures
        r == spec_status_of(body@),
{
    let s = strip_quotes(body);
    if s == String::from_str("active") {
        TunnelStatus::Active
    } else if s == String::from_str("none") {
        TunnelStatus::NotYetAvailable
    } else if s == String::from_str("unreachable") {
        TunnelStatus::Unreachable
    } else if s == String::from_str("deleted") {
        TunnelStatus::Deleted
    } else {
        TunnelStatus::Unknown
    }
}

/// One observation of the tunnel by the checker.
#[derive(PartialEq, Eq, Structural, Clone, Copy, Debug)]
pub enum CheckOutcome {
    Reply(TunnelStatus),
    HttpError,
    TransportError,
}

/// Consecutive failing observations that force a restart.
pub const MAX_CHECK_ERRORS_BEFORE_RESTART: u8 = 3;

/// Everything but a clean `active` reply and a `deleted` reply counts
/// against the tunnel.
pub open spec fn is_failure(o: CheckOutcome) -> bool {
    o != CheckOutcome::Reply(TunnelStatus::Active) && o != CheckOutcome::Reply(
        TunnelStatus::Deleted,
    )
}

/// What a tick does after its observation.
#[derive(PartialEq, Eq, Structural, Clone, Copy, Debug)]
pub enum TickAction {
    /// Carry on with this error count.
    Proceed(u8),
    /// `deleted`: stop the tunnel and the checker, do not restart.
    StopTunnel,
    /// The error count reached the limit: restart the child, count back
    /// to zero.
    Restart,
}

pub open spec fn spec_tick_action(o: CheckOutcome, error_count: u8) -> TickAction {
    match o {
        CheckOutcome::Reply(TunnelStatus::Active) => TickAction::Proceed(0),
        CheckOutcome::Reply(TunnelStatus::Deleted) => TickAction::StopTunnel,
        _ => if error_count as int + 1 >= MAX_CHECK_ERRORS_BEFORE_RESTART as int {
            TickAction::Restart
        } else {
            TickAction::Proceed((error_count + 1) as u8)
        },
    }
}

/// The per-tick decision: an `active` reply clears the counter, a
/// `deleted` reply ends the tunnel, anything else raises the counter and
/// restarts once it reaches the limit.
pub fn tick_action(o: &CheckOutcome, error_count: u8) -> (r: TickAction)
    ensures
        r == spec_tick_action(*o, error_count),
{
    match o {
        CheckOutcome::Reply(TunnelStatus::Active) => TickAction::Proceed(0),
        CheckOutcome::Reply(TunnelStatus::Deleted) => TickAction::StopTunnel,
        _ => {
            if error_count >= MAX_CHECK_ERRORS_BEFORE_RESTART - 1 {
                TickAction::Restart
            } else {
                TickAction::Proceed(error_count + 1)
            }
        },
    }
}

// ---------------------------------------------------------------------
// The supervisor's laws. The world records, next to the container, how
// many ssh children and live checker tasks the shell is running; each
// world transition below pairs a container transition with the effects
// the shell performs for it (launching, killing, aborting).
// ---------------------------------------------------------------------

pub struct SupWorld {
    pub container: SshContainer,
    pub children: nat,
    pub checkers: nat,
}

/// The supervisor invariant: the container's slots mirror the world.
pub open spec fn sup_inv(w: SupWorld) -> bool {
    &&& w.children == (if w.container.child is Some {
        1nat
    } else {
        0nat
    })
    &&& w.checkers == (if w.container.checker is Some {
        1nat
    } else {
        0nat
    })
    &&& (w.container.child is Some <==> w.container.checker is Some)
}

/// A successful spawn: one new child, one new checker.
pub open spec fn world_spawn(
    w: SupWorld,
    p: TunnelParams,
    child_id: u64,
    checker_id: u64,
) -> SupWorld {
    SupWorld {
        container: SshContainer {
            child: Some(child_id),
            params: Some(p),
            checker: Some(checker_id),
            checker_done_flag: w.container.checker_done_flag,
        },
        children: w.children + 1,
        checkers: w.checkers + 1,
    }
}

/// A stop: the shell kills the returned child and aborts the returned
/// checker, so the counts drop exactly where the slots were occupied.
pub open spec fn world_stop(w: SupWorld, stop_checker: bool, now: u128) -> SupWorld {
    SupWorld {
        container: spec_stop(w.container, stop_checker, now),
        children: if w.container.child is Some {
            (w.children - 1) as nat
        } else {
            w.children
        },
        checkers: if stop_checker && w.container.checker is Some {
            (w.checkers - 1) as nat
        } else {
            w.checkers
        },
    }
}

/// A restart tick that succeeds: the checker kills the old child,
/// launches a new one, and keeps running itself.
pub open spec fn world_restart(w: SupWorld, p: TunnelParams, child_id: u64, now: u128) -> SupWorld {
    let stopped = world_stop(w, false, now);
    SupWorld {
        container: SshContainer {
            child: Some(child_id),
            params: Some(p),
            checker: stopped.container.checker,
            checker_done_flag: stopped.container.checker_done_flag,
        },
        children: stopped.children + 1,
        checkers: stopped.checkers,
    }
}

/// A fresh world holds the invariant.
pub proof fn lemma_initial_world_inv(c: SshContainer)
    requires
        c.child is None,
        c.checker is None,
    ensures
        sup_inv(SupWorld { container: c, children: 0, checkers: 0 }),
{
}

/// At most one ssh child exists in any state the supervisor reaches.
pub proof fn lemma_at_most_one_child(w: SupWorld)
    requires
        sup_inv(w),
    ensures
        w.children <= 1,
{
}

/// A child is installed exactly when one checker task is scheduling.
pub proof fn lemma_child_iff_one_checker(w: SupWorld)
    requires
        sup_inv(w),
    ensures
        w.container.child is Some <==> w.checkers == 1,
{
}

/// Spawning from an empty slot preserves the invariant.
pub proof fn lemma_spawn_preserves_inv(w: SupWorld, p: TunnelParams, child_id: u64, checker_id: u64)
    requires
        sup_inv(w),
        w.container.child is None,
    ensures
        sup_inv(world_spawn(w, p, child_id, checker_id)),
{
}

/// An external teardown — unregister, a replacing register, or the
/// checker acting on a `deleted` reply — preserves the invariant.
pub proof fn lemma_stop_preserves_inv(w: SupWorld, now: u128)
    requires
        sup_inv(w),
    ensures
        sup_inv(world_stop(w, true, now)),
{
}

/// A successful restart tick preserves the invariant: the same checker
/// keeps running over the replacement child.
pub proof fn lemma_restart_preserves_inv(w: SupWorld, p: TunnelParams, child_id: u64, now: u128)
    requires
        sup_inv(w),
        w.container.child is Some,
    ensures
        sup_inv(world_restart(w, p, child_id, now)),
{
}

/// A restart tick whose launch failed leaves the child slot empty and
/// the checker running, so it can retry on a later tick. Even then no
/// second child can appear: the child count is zero.
pub proof fn lemma_failed_restart_leaves_no_child(w: SupWorld, now: u128)
    requires
        sup_inv(w),
        w.container.child is Some,
    ensures
        world_stop(w, false, now).children == 0,
        world_stop(w, false, now).container.child is None,
        world_stop(w, false, now).checkers == w.checkers,
{
}

/// After an external teardown at time `now`: no child, no checker task,
/// and a checker that started earlier than `now` and somehow outlived
/// the abort reads a stamp newer than its start on its next tick, so its
/// gate tells it to exit.
pub proof fn lemma_stop_is_final(w: SupWorld, now: u128, start: u128)
    requires
        sup_inv(w),
        start < now,
    ensures
        world_stop(w, true, now).container.child is None,
        world_stop(w, true, now).children == 0,
        world_stop(w, true, now).checkers == 0,
        world_stop(w, true, now).container.checker_done_flag > start,
{
}

/// Three consecutive failing observations from a clean counter raise it
/// twice and then cause exactly one restart, which clears it again.
pub proof fn lemma_three_failures_one_restart(o1: CheckOutcome, o2: CheckOutcome, o3: CheckOutcome)
    requires
        is_failure(o1),
        is_failure(o2),
        is_failure(o3),
    ensures
        spec_tick_action(o1, 0) == TickAction::Proceed(1),
        spec_tick_action(o2, 1) == TickAction::Proceed(2),
        spec_tick_action(o3, 2) == TickAction::Restart,
{
}

} // verus!
