//! The discovery state machine.
//!
//! Discovery alternates between decisions, which are verified here, and
//! probes of the host (running the locate command, reading a registry value,
//! launching a candidate), which only a driver outside the library can
//! perform.  The machine therefore advances one exchange at a time: each
//! [`Action`] it emits asks the driver for exactly one probe, and each
//! [`Event`] hands the probe's result back.  The sequence of decisions —
//! path probe first, then the five registry locations in their fixed order,
//! stopping at the first candidate that validates — is wholly the machine's,
//! and is pinned by `spec_step`.

use vstd::prelude::*;

use crate::bytes::copy_bytes;
use crate::locate::parse_locate_output;
use crate::locate::spec_parse_locate;
use crate::outcome::RunOutcome;
use crate::outcome::git_ran_ok;
use crate::outcome::spec_ran_ok;
use crate::platform::Platform;
use crate::registry::candidate_from_install_path;
use crate::registry::spec_candidate;
use crate::registry::spec_probe_count;

verus! {

/// What the driver is asked to do next.
pub enum Action {
    /// Run the locate command with the tool's name and capture its output.
    /// The expected answer is `Event::LocateOutput`.
    RunLocate,
    /// Read the registry value of the probe at `index` in `registry_probes()`.
    /// The expected answer is `Event::RegistryValue`.
    ReadRegistry { index: usize },
    /// Launch `candidate` with the version flag, discarding its output.
    /// The expected answer is `Event::Validated`.
    Validate { candidate: Vec<u8> },
    /// Discovery is over; `result` is its outcome.
    Finish { result: Option<Vec<u8>> },
}

/// What the driver observed for the action it was asked to perform.
pub enum Event {
    /// The locate command's captured standard output, or `None` when the
    /// command could not be run or its output was not valid text.
    LocateOutput { output: Option<Vec<u8>> },
    /// The text of the requested registry value, or `None` when the subkey
    /// or the value does not exist or cannot be read.
    RegistryValue { value: Option<Vec<u8>> },
    /// What happened when the candidate was launched.
    Validated { outcome: RunOutcome },
}

enum Phase {
    AwaitLocate,
    AwaitLocateValidation { candidate: Vec<u8> },
    AwaitRegistryValue { index: usize },
    AwaitRegistryValidation { index: usize, candidate: Vec<u8> },
    Finished { result: Option<Vec<u8>> },
}

/// The discovery state machine; create one with [`Discovery::new`] and
/// advance it with [`Discovery::step`] until it emits `Action::Finish`.
pub struct Discovery {
    platform: Platform,
    phase: Phase,
}

/// The mathematical state of a [`Discovery`] machine.
pub enum PhaseView {
    /// The locate command is being run.
    AwaitLocate,
    /// `candidate`, parsed from the locate output, is being validated.
    AwaitLocateValidation { candidate: Seq<u8> },
    /// The registry probe at `index` is being read.
    AwaitRegistryValue { index: int },
    /// `candidate`, derived from the value of probe `index`, is being
    /// validated.
    AwaitRegistryValidation { index: int, candidate: Seq<u8> },
    /// Discovery is over with `result`.
    Finished { result: Option<Seq<u8>> },
}

pub struct DiscoveryView {
    pub platform: Platform,
    pub phase: PhaseView,
}

/// The mathematical content of an [`Action`].
pub enum ActionView {
    RunLocate,
    ReadRegistry { index: int },
    Validate { candidate: Seq<u8> },
    Finish { result: Option<Seq<u8>> },
}

/// The mathematical content of an [`Event`].
pub enum EventView {
    LocateOutput { output: Option<Seq<u8>> },
    RegistryValue { value: Option<Seq<u8>> },
    Validated { outcome: RunOutcome },
}

/// The contents of an optional byte string.
pub open spec fn opt_bytes_view(o: Option<Vec<u8>>) -> Option<Seq<u8>> {
    match o {
        Some(v) => Some(v@),
        None => None,
    }
}

impl View for Action {
    type V = ActionView;

    open spec fn view(&self) -> ActionView {
        match self {
            Action::RunLocate => ActionView::RunLocate,
            Action::ReadRegistry { index } => ActionView::ReadRegistry { index: *index as int },
            Action::Validate { candidate } => ActionView::Validate { candidate: candidate@ },
            Action::Finish { result } => ActionView::Finish { result: opt_bytes_view(*result) },
        }
    }
}

impl View for Event {
    type V = EventView;

    open spec fn view(&self) -> EventView {
        match self {
            Event::LocateOutput { output } => EventView::LocateOutput {
                output: opt_bytes_view(*output),
            },
            Event::RegistryValue { value } => EventView::RegistryValue {
                value: opt_bytes_view(*value),
            },
            Event::Validated { outcome } => EventView::Validated { outcome: *outcome },
        }
    }
}

impl View for Discovery {
    type V = DiscoveryView;

    closed spec fn view(&self) -> DiscoveryView {
        DiscoveryView {
            platform: self.platform,
            phase: match &self.phase {
                Phase::AwaitLocate => PhaseView::AwaitLocate,
                Phase::AwaitLocateValidation { candidate } => PhaseView::AwaitLocateValidation {
                    candidate: candidate@,
                },
                Phase::AwaitRegistryValue { index } => PhaseView::AwaitRegistryValue {
                    index: *index as int,
                },
                Phase::AwaitRegistryValidation { index, candidate } => PhaseView::AwaitRegistryValidation {
                    index: *index as int,
                    candidate: candidate@,
                },
                Phase::Finished { result } => PhaseView::Finished {
                    result: opt_bytes_view(*result),
                },
            },
        }
    }
}

impl DiscoveryView {
    /// Registry phases only occur on Windows-family hosts, with an index
    /// among the five fixed probes; holds in every reachable state.
    pub open spec fn inv(self) -> bool {
        match self.phase {
            PhaseView::AwaitRegistryValue { index } => self.platform is Windows && 0 <= index
                < spec_probe_count(),
            PhaseView::AwaitRegistryValidation { index, .. } => self.platform is Windows && 0
                <= index < spec_probe_count(),
            _ => true,
        }
    }
}

/// The action a machine in the given state asks of its driver.
pub open spec fn spec_pending(d: DiscoveryView) -> ActionView {
    match d.phase {
        PhaseView::AwaitLocate => ActionView::RunLocate,
        PhaseView::AwaitLocateValidation { candidate } => ActionView::Validate { candidate },
        PhaseView::AwaitRegistryValue { index } => ActionView::ReadRegistry { index },
        PhaseView::AwaitRegistryValidation { index: _, candidate } => ActionView::Validate {
            candidate,
        },
        PhaseView::Finished { result } => ActionView::Finish { result },
    }
}

/// Whether `e` answers the action pending in state `d`.
pub open spec fn spec_accepts(d: DiscoveryView, e: EventView) -> bool {
    match d.phase {
        PhaseView::AwaitLocate => e is LocateOutput,
        PhaseView::AwaitLocateValidation { .. } => e is Validated,
        PhaseView::AwaitRegistryValue { .. } => e is RegistryValue,
        PhaseView::AwaitRegistryValidation { .. } => e is Validated,
        PhaseView::Finished { .. } => false,
    }
}

/// The phase entered when the path probe has contributed nothing: registry
/// probing from the first location on Windows-family hosts, absence on
/// POSIX-like ones.
pub open spec fn spec_fallthrough(platform: Platform) -> PhaseView {
    if platform is Windows {
        PhaseView::AwaitRegistryValue { index: 0 }
    } else {
        PhaseView::Finished { result: None }
    }
}

/// The phase entered when registry probe `index` has contributed nothing:
/// the next probe in order, or absence after the last one.
pub open spec fn spec_next_probe(index: int) -> PhaseView {
    if index + 1 < spec_probe_count() {
        PhaseView::AwaitRegistryValue { index: index + 1 }
    } else {
        PhaseView::Finished { result: None }
    }
}

/// The whole discovery policy, one exchange at a time: the phase a machine
/// in state `d` enters on event `e`.
pub open spec fn spec_step(d: DiscoveryView, e: EventView) -> PhaseView
    recommends
        spec_accepts(d, e),
{
    match d.phase {
        PhaseView::AwaitLocate => match e {
            EventView::LocateOutput { output: Some(out) } => match spec_parse_locate(out) {
                Some(candidate) => PhaseView::AwaitLocateValidation { candidate },
                None => spec_fallthrough(d.platform),
            },
            _ => spec_fallthrough(d.platform),
        },
        PhaseView::AwaitLocateValidation { candidate } => match e {
            EventView::Validated { outcome } => if spec_ran_ok(outcome) {
                PhaseView::Finished { result: Some(candidate) }
            } else {
                spec_fallthrough(d.platform)
            },
            _ => d.phase,
        },
        PhaseView::AwaitRegistryValue { index } => match e {
            EventView::RegistryValue { value: Some(install) } => PhaseView::AwaitRegistryValidation {
                index,
                candidate: spec_candidate(install),
            },
            _ => spec_next_probe(index),
        },
        PhaseView::AwaitRegistryValidation { index, candidate } => match e {
            EventView::Validated { outcome } => if spec_ran_ok(outcome) {
                PhaseView::Finished { result: Some(candidate) }
            } else {
                spec_next_probe(index)
            },
            _ => d.phase,
        },
        PhaseView::Finished { .. } => d.phase,
    }
}

/// A validating hit from the locate command ends discovery at once: from
/// the initial state the machine asks for validation of the parsed
/// candidate, then finishes with it.  Neither exchange is a registry read,
/// so a hit on the search path never consults the registry.
pub proof fn lemma_path_hit_skips_registry(
    d: DiscoveryView,
    out: Seq<u8>,
    candidate: Seq<u8>,
    outcome: RunOutcome,
)
    requires
        d.phase == PhaseView::AwaitLocate,
        spec_parse_locate(out) == Some(candidate),
        spec_ran_ok(outcome),
    ensures
        spec_step(d, EventView::LocateOutput { output: Some(out) }) == (
        PhaseView::AwaitLocateValidation { candidate }),
        spec_pending(
            DiscoveryView {
                platform: d.platform,
                phase: PhaseView::AwaitLocateValidation { candidate },
            },
        ) == (ActionView::Validate { candidate }),
        spec_step(
            DiscoveryView {
                platform: d.platform,
                phase: PhaseView::AwaitLocateValidation { candidate },
            },
            EventView::Validated { outcome },
        ) == (PhaseView::Finished { result: Some(candidate) }),
{
}

/// When the locate command is unavailable or answers nothing, discovery
/// does not raise: it hands over to the first registry probe on a
/// Windows-family host, and finishes with absence on a POSIX-like one.
pub proof fn lemma_locate_unavailable_falls_through(d: DiscoveryView)
    requires
        d.phase == PhaseView::AwaitLocate,
    ensures
        d.platform is Windows ==> spec_step(d, EventView::LocateOutput { output: None }) == (
        PhaseView::AwaitRegistryValue { index: 0 }),
        d.platform is Posix ==> spec_step(d, EventView::LocateOutput { output: None }) == (
        PhaseView::Finished { result: None }),
{
}

/// Registry probes are consulted in their fixed order: the probe at
/// `index` is the one read in that phase; when it contributes nothing the
/// machine moves to the probe right after it (or to absence after the
/// last); and when its candidate validates the machine finishes, so no
/// later probe is ever consulted.
pub proof fn lemma_registry_probes_in_order(
    d: DiscoveryView,
    index: int,
    install: Seq<u8>,
    outcome: RunOutcome,
)
    requires
        d.phase == (PhaseView::AwaitRegistryValue { index }),
        0 <= index < spec_probe_count(),
    ensures
        spec_pending(d) == (ActionView::ReadRegistry { index }),
        spec_step(d, EventView::RegistryValue { value: None }) == spec_next_probe(index),
        index + 1 < spec_probe_count() ==> spec_next_probe(index) == (
        PhaseView::AwaitRegistryValue { index: index + 1 }),
        index + 1 == spec_probe_count() ==> spec_next_probe(index) == (
        PhaseView::Finished { result: None }),
        spec_step(d, EventView::RegistryValue { value: Some(install) }) == (
        PhaseView::AwaitRegistryValidation { index, candidate: spec_candidate(install) }),
        spec_ran_ok(outcome) ==> spec_step(
            DiscoveryView {
                platform: d.platform,
                phase: PhaseView::AwaitRegistryValidation {
                    index,
                    candidate: spec_candidate(install),
                },
            },
            EventView::Validated { outcome },
        ) == (PhaseView::Finished { result: Some(spec_candidate(install)) }),
{
}

impl Discovery {
    /// Starts discovery for `platform`; the first action is always to run
    /// the locate command.
    pub fn new(platform: Platform) -> (r: (Discovery, Action))
        ensures
            r.0@.platform == platform,
            r.0@.phase == PhaseView::AwaitLocate,
            r.0@.inv(),
            r.1@ == spec_pending(r.0@),
    {
        (Discovery { platform, phase: Phase::AwaitLocate }, Action::RunLocate)
    }

    /// Advances the machine by one exchange: consumes the answer to the
    /// pending action and returns the machine with its next action.
    pub fn step(self, event: Event) -> (r: (Discovery, Action))
        requires
            self@.inv(),
            spec_accepts(self@, event@),
        ensures
            r.0@.platform == self@.platform,
            r.0@.phase == spec_step(self@, event@),
            r.0@.inv(),
            r.1@ == spec_pending(r.0@),
    {
        let Discovery { platform, phase } = self;
        match phase {
            Phase::AwaitLocate => match event {
                Event::LocateOutput { output: Some(out) } => match parse_locate_output(&out) {
                    Some(candidate) => {
                        let reply = copy_bytes(&candidate);
                        (
                            Discovery {
                                platform,
                                phase: Phase::AwaitLocateValidation { candidate },
                            },
                            Action::Validate { candidate: reply },
                        )
                    },
                    None => Self::fallthrough(platform),
                },
                Event::LocateOutput { output: None } => Self::fallthrough(platform),
                _ => vstd::pervasive::unreached(),
            },
            Phase::AwaitLocateValidation { candidate } => match event {
                Event::Validated { outcome } => if git_ran_ok(&outcome) {
                    let reply = copy_bytes(&candidate);
                    (
                        Discovery { platform, phase: Phase::Finished { result: Some(candidate) } },
                        Action::Finish { result: Some(reply) },
                    )
                } else {
                    Self::fallthrough(platform)
                },
                _ => vstd::pervasive::unreached(),
            },
            Phase::AwaitRegistryValue { index } => match event {
                Event::RegistryValue { value: Some(install) } => {
                    let candidate = candidate_from_install_path(&install);
                    let reply = copy_bytes(&candidate);
                    (
                        Discovery {
                            platform,
                            phase: Phase::AwaitRegistryValidation { index, candidate },
                        },
                        Action::Validate { candidate: reply },
                    )
                },
                Event::RegistryValue { value: None } => Self::next_probe(platform, index),
                _ => vstd::pervasive::unreached(),
            },
            Phase::AwaitRegistryValidation { index, candidate } => match event {
                Event::Validated { outcome } => if git_ran_ok(&outcome) {
                    let reply = copy_bytes(&candidate);
                    (
                        Discovery { platform, phase: Phase::Finished { result: Some(candidate) } },
                        Action::Finish { result: Some(reply) },
                    )
                } else {
                    Self::next_probe(platform, index)
                },
                _ => vstd::pervasive::unreached(),
            },
            Phase::Finished { .. } => vstd::pervasive::unreached(),
        }
    }

    fn fallthrough(platform: Platform) -> (r: (Discovery, Action))
        ensures
            r.0@.platform == platform,
            r.0@.phase == spec_fallthrough(platform),
            r.0@.inv(),
            r.1@ == spec_pending(r.0@),
    {
        match platform {
            Platform::Windows => (
                Discovery { platform, phase: Phase::AwaitRegistryValue { index: 0 } },
                Action::ReadRegistry { index: 0 },
            ),
            Platform::Posix => (
                Discovery { platform, phase: Phase::Finished { result: None } },
                Action::Finish { result: None },
            ),
        }
    }

    fn next_probe(platform: Platform, index: usize) -> (r: (Discovery, Action))
        requires
            platform is Windows,
            0 <= index < spec_probe_count(),
        ensures
            r.0@.platform == platform,
            r.0@.phase == spec_next_probe(index as int),
            r.0@.inv(),
            r.1@ == spec_pending(r.0@),
    {
        if index + 1 < 5 {
            (
                Discovery { platform, phase: Phase::AwaitRegistryValue { index: index + 1 } },
                Action::ReadRegistry { index: index + 1 },
            )
        } else {
            (
                Discovery { platform, phase: Phase::Finished { result: None } },
                Action::Finish { result: None },
            )
        }
    }
}

} // verus!
