//! The rendering-subprocess supervisor: the launch gates, the lifecycle
//! state machine, and proofs that one server instance never runs the
//! subprocess twice and terminates it exactly once.

use vstd::prelude::*;
use vstd::string::StringExecFns;
use crate::ascii::{eq_ignore_case, spec_eq_ignore_ascii_case};
use crate::config::RuntimeMode;
use crate::numtext::{push_decimal, spec_decimal};

verus! {

/// The fixed port on which the rendering bridge reaches the subprocess.
pub const SSR_PORT: u16 = 5174;

/// The conventional on-disk path of the renderer artifact.
pub fn ssr_artifact_path() -> (r: &'static str)
    ensures
        r@ == "dist/ssr/ssr.js"@,
{
    "dist/ssr/ssr.js"
}

/// The host on which the rendering bridge reaches the subprocess.
pub fn ssr_host() -> (r: &'static str)
    ensures
        r@ == "127.0.0.1"@,
{
    "127.0.0.1"
}

/// The server's own base URL handed to the rendering bridge.
pub fn base_url(port: u16) -> (r: String)
    ensures
        r@ == "http://localhost:"@ + spec_decimal(port as nat),
{
    let mut s = String::from_str("http://localhost:");
    push_decimal(&mut s, port);
    s
}

/// The explicit subprocess override: forced off, forced on, or left to the
/// mode and renderer detection.
#[derive(Clone, Copy, Debug, PartialEq, Eq, Structural)]
pub enum SsrOverride {
    Auto,
    ForceOn,
    ForceOff,
}

/// What an override text denotes: `off`, `false` or `0` force-disable;
/// `on`, `true` or `1` force-enable; anything else changes nothing. Letter
/// case is ignored.
pub open spec fn spec_parse_override(s: Seq<u8>) -> SsrOverride {
    if spec_eq_ignore_ascii_case(s, seq![0x6fu8, 0x66u8, 0x66u8]) || spec_eq_ignore_ascii_case(
        s,
        seq![0x66u8, 0x61u8, 0x6cu8, 0x73u8, 0x65u8],
    ) || spec_eq_ignore_ascii_case(s, seq![0x30u8]) {
        SsrOverride::ForceOff
    } else if spec_eq_ignore_ascii_case(s, seq![0x6fu8, 0x6eu8]) || spec_eq_ignore_ascii_case(
        s,
        seq![0x74u8, 0x72u8, 0x75u8, 0x65u8],
    ) || spec_eq_ignore_ascii_case(s, seq![0x31u8]) {
        SsrOverride::ForceOn
    } else {
        SsrOverride::Auto
    }
}

/// Parse an override text, case-insensitively.
pub fn parse_override(s: &[u8]) -> (r: SsrOverride)
    ensures
        r == spec_parse_override(s@),
{
    let off: [u8; 3] = [0x6f, 0x66, 0x66];
    let word_false: [u8; 5] = [0x66, 0x61, 0x6c, 0x73, 0x65];
    let zero: [u8; 1] = [0x30];
    let on: [u8; 2] = [0x6f, 0x6e];
    let word_true: [u8; 4] = [0x74, 0x72, 0x75, 0x65];
    let one: [u8; 1] = [0x31];
    proof {
        assert(off@ =~= seq![0x6fu8, 0x66u8, 0x66u8]);
        assert(word_false@ =~= seq![0x66u8, 0x61u8, 0x6cu8, 0x73u8, 0x65u8]);
        assert(zero@ =~= seq![0x30u8]);
        assert(on@ =~= seq![0x6fu8, 0x6eu8]);
        assert(word_true@ =~= seq![0x74u8, 0x72u8, 0x75u8, 0x65u8]);
        assert(one@ =~= seq![0x31u8]);
    }
    if eq_ignore_case(s, off.as_slice()) || eq_ignore_case(s, word_false.as_slice())
        || eq_ignore_case(s, zero.as_slice()) {
        SsrOverride::ForceOff
    } else if eq_ignore_case(s, on.as_slice()) || eq_ignore_case(s, word_true.as_slice())
        || eq_ignore_case(s, one.as_slice()) {
        SsrOverride::ForceOn
    } else {
        SsrOverride::Auto
    }
}

/// Everything the launch decision depends on.
#[derive(Clone, Copy, Debug, PartialEq, Eq, Structural)]
pub struct SsrGates {
    /// The resolved runtime mode.
    pub mode: RuntimeMode,
    /// Whether a local interactive development renderer was detected.
    pub dev_renderer_active: bool,
    /// The explicit override.
    pub control: SsrOverride,
    /// Whether the renderer artifact exists on disk.
    pub artifact_present: bool,
}

/// Whether the subprocess is launched: never without the artifact; with it,
/// a forced override decides, and otherwise only production mode with no
/// active development renderer enables the launch.
pub open spec fn spec_ssr_enabled(g: SsrGates) -> bool {
    g.artifact_present && match g.control {
        SsrOverride::ForceOff => false,
        SsrOverride::ForceOn => true,
        SsrOverride::Auto => g.mode is Prod && !g.dev_renderer_active,
    }
}

/// Evaluate the launch gates.
pub fn ssr_enabled(g: &SsrGates) -> (r: bool)
    ensures
        r == spec_ssr_enabled(*g),
{
    g.artifact_present && match g.control {
        SsrOverride::ForceOff => false,
        SsrOverride::ForceOn => true,
        SsrOverride::Auto => g.mode == RuntimeMode::Prod && !g.dev_renderer_active,
    }
}

/// The artifact check is never bypassed: no gate combination launches the
/// subprocess without the artifact on disk.
pub proof fn lemma_artifact_required(g: SsrGates)
    ensures
        !g.artifact_present ==> !spec_ssr_enabled(g),
{
}

/// Under automatic control the launch happens exactly in production mode
/// with no active development renderer and the artifact present.
pub proof fn lemma_auto_gating(g: SsrGates)
    ensures
        g.control is Auto ==> (spec_ssr_enabled(g) <==> (g.mode is Prod && !g.dev_renderer_active
            && g.artifact_present)),
{
}

/// The lifecycle states of the subprocess supervisor.
#[derive(Clone, Copy, Debug, PartialEq, Eq, Structural)]
pub enum SsrState {
    /// No decision has been taken yet.
    NotStarted,
    /// The subprocess is live.
    Running,
    /// The subprocess was live and has been terminated.
    Terminated,
    /// The launch was declined or failed; nothing will ever run.
    NeverStarted,
}

/// The events the supervisor reacts to.
#[derive(Clone, Copy, Debug, PartialEq, Eq, Structural)]
pub enum SsrEvent {
    /// The launch gates were evaluated.
    Gate(SsrGates),
    /// The subprocess was spawned successfully.
    Launched,
    /// Spawning the subprocess failed.
    LaunchFailed,
    /// The server shut down.
    Shutdown,
}

/// The transition relation of the supervisor: failing gates or a failed
/// spawn settle in `NeverStarted`; a successful spawn runs; shutdown
/// terminates a running subprocess; every other event changes nothing.
pub open spec fn spec_step(s: SsrState, e: SsrEvent) -> SsrState {
    match e {
        SsrEvent::Gate(g) => if s is NotStarted && !spec_ssr_enabled(g) {
            SsrState::NeverStarted
        } else {
            s
        },
        SsrEvent::Launched => if s is NotStarted {
            SsrState::Running
        } else {
            s
        },
        SsrEvent::LaunchFailed => if s is NotStarted {
            SsrState::NeverStarted
        } else {
            s
        },
        SsrEvent::Shutdown => if s is Running {
            SsrState::Terminated
        } else {
            s
        },
    }
}

/// The state after a whole trace of events.
pub open spec fn spec_run(s0: SsrState, events: Seq<SsrEvent>) -> SsrState
    decreases events.len(),
{
    if events.len() == 0 {
        s0
    } else {
        spec_step(spec_run(s0, events.drop_last()), events.last())
    }
}

/// How many events of a trace move the machine into `target`.
pub open spec fn spec_entries(s0: SsrState, events: Seq<SsrEvent>, target: SsrState) -> int
    decreases events.len(),
{
    if events.len() == 0 {
        0
    } else {
        let before = spec_run(s0, events.drop_last());
        let after = spec_step(before, events.last());
        spec_entries(s0, events.drop_last(), target) + if after == target && before != target {
            1int
        } else {
            0int
        }
    }
}

/// No event leads back to `NotStarted`; `Running` is entered only from
/// `NotStarted`; `Terminated` is never left.
proof fn lemma_step_shape(s: SsrState, e: SsrEvent)
    ensures
        spec_step(s, e) is NotStarted ==> s is NotStarted,
        spec_step(s, e) is Running && !(s is Running) ==> s is NotStarted,
        s is Terminated ==> spec_step(s, e) is Terminated,
{
}

/// Within one lifetime the machine enters `Running` at most once.
pub proof fn lemma_runs_at_most_once(events: Seq<SsrEvent>)
    ensures
        spec_entries(SsrState::NotStarted, events, SsrState::Running) <= 1,
        spec_run(SsrState::NotStarted, events) is NotStarted ==> spec_entries(
            SsrState::NotStarted,
            events,
            SsrState::Running,
        ) == 0,
    decreases events.len(),
{
    if events.len() > 0 {
        lemma_runs_at_most_once(events.drop_last());
        let before = spec_run(SsrState::NotStarted, events.drop_last());
        let after = spec_step(before, events.last());
        lemma_step_shape(before, events.last());
    }
}

/// `Terminated` is entered exactly once on every trace that ends there,
/// and never on any other trace.
pub proof fn lemma_terminated_exactly_once(events: Seq<SsrEvent>)
    ensures
        spec_entries(SsrState::NotStarted, events, SsrState::Terminated) == if spec_run(
            SsrState::NotStarted,
            events,
        ) is Terminated {
            1int
        } else {
            0int
        },
    decreases events.len(),
{
    if events.len() > 0 {
        lemma_terminated_exactly_once(events.drop_last());
        let before = spec_run(SsrState::NotStarted, events.drop_last());
        lemma_step_shape(before, events.last());
    }
}

/// A shutdown of a running subprocess always terminates it.
pub proof fn lemma_shutdown_terminates(events: Seq<SsrEvent>)
    requires
        spec_run(SsrState::NotStarted, events) is Running,
    ensures
        spec_run(SsrState::NotStarted, events.push(SsrEvent::Shutdown)) is Terminated,
{
    assert(events.push(SsrEvent::Shutdown).drop_last() =~= events);
}

/// The supervisor: tracks the lifecycle state; the live process handle
/// itself is owned by the caller that spawns and kills the subprocess on
/// this supervisor's say-so.
pub struct Supervisor {
    state: SsrState,
}

impl View for Supervisor {
    type V = SsrState;

    closed spec fn view(&self) -> SsrState {
        self.state
    }
}

impl Supervisor {
    /// A supervisor for a fresh server instance.
    pub fn new() -> (r: Supervisor)
        ensures
            r@ == SsrState::NotStarted,
    {
        Supervisor { state: SsrState::NotStarted }
    }

    /// The current lifecycle state.
    pub fn state(&self) -> (r: SsrState)
        ensures
            r == self@,
    {
        self.state
    }

    /// Evaluate the launch gates. Returns whether the caller should spawn
    /// the subprocess; failing gates settle the machine in `NeverStarted`.
    pub fn gate(&mut self, g: SsrGates) -> (launch: bool)
        ensures
            final(self)@ == spec_step(old(self)@, SsrEvent::Gate(g)),
            launch == (old(self)@ is NotStarted && spec_ssr_enabled(g)),
    {
        if self.state == SsrState::NotStarted {
            if ssr_enabled(&g) {
                true
            } else {
                self.state = SsrState::NeverStarted;
                false
            }
        } else {
            false
        }
    }

    /// Record a successful spawn.
    pub fn launched(&mut self)
        ensures
            final(self)@ == spec_step(old(self)@, SsrEvent::Launched),
    {
        if self.state == SsrState::NotStarted {
            self.state = SsrState::Running;
        }
    }

    /// Record a failed spawn; the server goes on without the subprocess.
    pub fn launch_failed(&mut self)
        ensures
            final(self)@ == spec_step(old(self)@, SsrEvent::LaunchFailed),
    {
        if self.state == SsrState::NotStarted {
            self.state = SsrState::NeverStarted;
        }
    }

    /// Record the server's shutdown. Returns whether a live subprocess
    /// must now be killed; asked again, or without a live subprocess, it
    /// returns false, so termination is attempted exactly once.
    pub fn shutdown(&mut self) -> (was_running: bool)
        ensures
            final(self)@ == spec_step(old(self)@, SsrEvent::Shutdown),
            was_running == (old(self)@ is Running),
    {
        if self.state == SsrState::Running {
            self.state = SsrState::Terminated;
            true
        } else {
            false
        }
    }
}

} // verus!
