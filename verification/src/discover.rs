//! The discovery orchestrator, run to completion against an in-memory
//! description of a host.
//!
//! [`git_path`] composes the probes exactly as a live driver would — the
//! path probe first, then, on Windows-family hosts, the five registry
//! locations in their fixed order — by driving the [`Discovery`] machine and
//! answering each of its actions from an [`Environment`] value.  Its
//! contract pins the result of the whole policy, [`spec_discover`], and so
//! ties the machine's exchange-by-exchange behaviour to the end-to-end one.

use vstd::prelude::*;

use crate::bytes::copy_bytes;
use crate::bytes::eq_bytes;
use crate::machine::Action;
use crate::machine::Discovery;
use crate::machine::Event;
use crate::machine::PhaseView;
use crate::machine::opt_bytes_view;
use crate::machine::spec_pending;
use crate::outcome::RunOutcome;
use crate::platform::Platform;
use crate::registry::spec_candidate;
use crate::registry::spec_probe_count;

verus! {

/// Everything a host can answer during one discovery run: what the locate
/// command prints, what each of the five registry probes holds, and which
/// paths launch when spawned.  A test builds one directly; a live driver
/// instead performs the probes one by one, so it never constructs one.
pub struct Environment {
    pub platform: Platform,
    /// The locate command's output, or `None` when the command is
    /// unavailable or its output is not valid text.
    pub locate_output: Option<Vec<u8>>,
    /// The value each registry probe yields, by probe position; positions
    /// beyond the end of the vector yield nothing.
    pub registry_values: Vec<Option<Vec<u8>>>,
    /// The paths that launch when spawned; every other path fails to start.
    pub valid_paths: Vec<Vec<u8>>,
}

/// The mathematical content of an [`Environment`].
pub struct EnvironmentView {
    pub platform: Platform,
    pub locate_output: Option<Seq<u8>>,
    pub registry_values: Seq<Option<Seq<u8>>>,
    pub valid_paths: Seq<Seq<u8>>,
}

impl View for Environment {
    type V = EnvironmentView;

    open spec fn view(&self) -> EnvironmentView {
        EnvironmentView {
            platform: self.platform,
            locate_output: opt_bytes_view(self.locate_output),
            registry_values: self.registry_values@.map(|i: int, o: Option<Vec<u8>>| opt_bytes_view(o)),
            valid_paths: self.valid_paths@.map(|i: int, p: Vec<u8>| p@),
        }
    }
}

impl EnvironmentView {
    /// Whether `path` launches on this host.
    pub open spec fn validates(self, path: Seq<u8>) -> bool {
        self.valid_paths.contains(path)
    }

    /// What the registry probe at `index` yields.
    pub open spec fn registry_value(self, index: int) -> Option<Seq<u8>> {
        if 0 <= index < self.registry_values.len() {
            self.registry_values[index]
        } else {
            None
        }
    }
}

/// What the path probe contributes: the candidate parsed from the locate
/// command's output, provided it validates.
pub open spec fn spec_path_probe(env: EnvironmentView) -> Option<Seq<u8>> {
    match env.locate_output {
        Some(out) => match crate::locate::spec_parse_locate(out) {
            Some(candidate) => if env.validates(candidate) {
                Some(candidate)
            } else {
                None
            },
            None => None,
        },
        None => None,
    }
}

/// The first validating candidate among the registry probes at positions
/// `index` and beyond, in order.
pub open spec fn spec_registry_scan(env: EnvironmentView, index: int) -> Option<Seq<u8>>
    decreases spec_probe_count() - index,
{
    if index < 0 || index >= spec_probe_count() {
        None
    } else {
        match env.registry_value(index) {
            Some(install) => {
                let candidate = spec_candidate(install);
                if env.validates(candidate) {
                    Some(candidate)
                } else {
                    spec_registry_scan(env, index + 1)
                }
            },
            None => spec_registry_scan(env, index + 1),
        }
    }
}

/// What discovery returns once the path probe has contributed nothing:
/// the registry scan from the first probe on Windows-family hosts, absence
/// on POSIX-like ones.
pub open spec fn spec_fallthrough_result(env: EnvironmentView) -> Option<Seq<u8>> {
    if env.platform is Windows {
        spec_registry_scan(env, 0)
    } else {
        None
    }
}

/// The result of the whole discovery policy on a host: the path probe's
/// candidate when it validates, else the first validating registry
/// candidate in probe order on Windows-family hosts, else absence.
pub open spec fn spec_discover(env: EnvironmentView) -> Option<Seq<u8>> {
    match spec_path_probe(env) {
        Some(candidate) => Some(candidate),
        None => spec_fallthrough_result(env),
    }
}

/// The final result a machine in phase `phase` is still to reach on `env`,
/// assuming every remaining action is answered from `env`.
pub open spec fn spec_remaining(env: EnvironmentView, phase: PhaseView) -> Option<Seq<u8>> {
    match phase {
        PhaseView::AwaitLocate => spec_discover(env),
        PhaseView::AwaitLocateValidation { candidate } => if env.validates(candidate) {
            Some(candidate)
        } else {
            spec_fallthrough_result(env)
        },
        PhaseView::AwaitRegistryValue { index } => spec_registry_scan(env, index),
        PhaseView::AwaitRegistryValidation { index, candidate } => if env.validates(candidate) {
            Some(candidate)
        } else {
            spec_registry_scan(env, index + 1)
        },
        PhaseView::Finished { result } => result,
    }
}

/// An upper bound on the exchanges a machine in phase `phase` still makes.
pub open spec fn spec_rank(phase: PhaseView) -> int {
    match phase {
        PhaseView::AwaitLocate => 14,
        PhaseView::AwaitLocateValidation { .. } => 13,
        PhaseView::AwaitRegistryValue { index } => 12 - 2 * index,
        PhaseView::AwaitRegistryValidation { index, .. } => 11 - 2 * index,
        PhaseView::Finished { .. } => 0,
    }
}

impl Environment {
    /// What the locate command prints on this host.
    fn locate(&self) -> (r: Option<Vec<u8>>)
        ensures
            opt_bytes_view(r) == self@.locate_output,
    {
        match &self.locate_output {
            Some(out) => Some(copy_bytes(out)),
            None => None,
        }
    }

    /// What the registry probe at `index` yields on this host.
    fn registry_value_at(&self, index: usize) -> (r: Option<Vec<u8>>)
        ensures
            opt_bytes_view(r) == self@.registry_value(index as int),
    {
        if index < self.registry_values.len() {
            match &self.registry_values[index] {
                Some(install) => Some(copy_bytes(install)),
                None => None,
            }
        } else {
            None
        }
    }

    /// Whether `path` launches on this host.
    fn validate(&self, path: &Vec<u8>) -> (r: bool)
        ensures
            r == self@.validates(path@),
    {
        let mut j: usize = 0;
        while j < self.valid_paths.len()
            invariant
                0 <= j <= self.valid_paths.len(),
                forall|k: int| 0 <= k < j ==> self@.valid_paths[k] != path@,
                self@.valid_paths.len() == self.valid_paths@.len(),
                forall|k: int| 0 <= k < self.valid_paths@.len()
                    ==> self@.valid_paths[k] == self.valid_paths@[k]@,
            decreases self.valid_paths.len() - j,
        {
            if eq_bytes(&self.valid_paths[j], path) {
                assert(self@.valid_paths[j as int] == path@);
                assert(self@.validates(path@));
                return true;
            }
            j = j + 1;
        }
        assert(forall|k: int| 0 <= k < self@.valid_paths.len() ==> self@.valid_paths[k] != path@);
        assert(!self@.valid_paths.contains(path@));
        false
    }
}

/// Locates Git on the host that `env` describes: the candidate named by the
/// locate command when it validates; otherwise, on Windows-family hosts, the
/// first registry probe in the fixed order whose install directory yields a
/// validating `bin\git.exe`; otherwise nothing.  A returned path always
/// validates on `env`; absence is a normal outcome, not an error.
pub fn git_path(env: &Environment) -> (r: Option<Vec<u8>>)
    ensures
        opt_bytes_view(r) == spec_discover(env@),
        r matches Some(path) ==> env@.validates(path@),
{
    let (m0, a0) = Discovery::new(env.platform);
    let mut machine = m0;
    let mut action = a0;
    loop
        invariant
            machine@.inv(),
            machine@.platform == env@.platform,
            action@ == spec_pending(machine@),
            spec_remaining(env@, machine@.phase) == spec_discover(env@),
        decreases spec_rank(machine@.phase),
    {
        match action {
            Action::RunLocate => {
                let output = env.locate();
                let (m, a) = machine.step(Event::LocateOutput { output });
                machine = m;
                action = a;
            },
            Action::ReadRegistry { index } => {
                let value = env.registry_value_at(index);
                let (m, a) = machine.step(Event::RegistryValue { value });
                proof {
                    assert(spec_registry_scan(env@, spec_probe_count()) is None);
                }
                machine = m;
                action = a;
            },
            Action::Validate { candidate } => {
                let ok = env.validate(&candidate);
                let outcome = if ok {
                    RunOutcome::Completed { exit_code: 0 }
                } else {
                    RunOutcome::LaunchFailed
                };
                let (m, a) = machine.step(Event::Validated { outcome });
                proof {
                    assert(spec_registry_scan(env@, spec_probe_count()) is None);
                }
                machine = m;
                action = a;
            },
            Action::Finish { result } => {
                proof {
                    lemma_discover_validates(env@);
                }
                return result;
            },
        }
    }
}

/// Every path the registry scan returns validates on the host.
proof fn lemma_registry_scan_validates(env: EnvironmentView, index: int)
    ensures
        spec_registry_scan(env, index) matches Some(path) ==> env.validates(path),
    decreases spec_probe_count() - index,
{
    if 0 <= index < spec_probe_count() {
        lemma_registry_scan_validates(env, index + 1);
    }
}

/// Discovery never fabricates a path: whatever it returns validates on the
/// host it ran against.
pub proof fn lemma_discover_validates(env: EnvironmentView)
    ensures
        spec_discover(env) matches Some(path) ==> env.validates(path),
{
    lemma_registry_scan_validates(env, 0);
}

/// When the tool is on the search path and validates, discovery returns it
/// from the path probe alone, whatever the registry holds.
pub proof fn lemma_path_hit_wins(env: EnvironmentView, out: Seq<u8>, candidate: Seq<u8>)
    requires
        env.locate_output == Some(out),
        crate::locate::spec_parse_locate(out) == Some(candidate),
        env.validates(candidate),
    ensures
        spec_discover(env) == Some(candidate),
{
}

/// When the locate command is unavailable, discovery degrades without
/// raising: to the registry scan on a Windows-family host, to absence on a
/// POSIX-like one.
pub proof fn lemma_locate_unavailable_result(env: EnvironmentView)
    requires
        env.locate_output is None,
    ensures
        env.platform is Windows ==> spec_discover(env) == spec_registry_scan(env, 0),
        env.platform is Posix ==> spec_discover(env) is None,
{
}

/// What one registry probe contributes on its own: the candidate derived
/// from its install directory, provided both exist and the candidate
/// validates.
pub open spec fn spec_probe_contributes(env: EnvironmentView, index: int) -> Option<Seq<u8>> {
    match env.registry_value(index) {
        Some(install) => if env.validates(spec_candidate(install)) {
            Some(spec_candidate(install))
        } else {
            None
        },
        None => None,
    }
}

proof fn lemma_registry_scan_from(env: EnvironmentView, lo: int, index: int)
    requires
        0 <= lo <= index < spec_probe_count(),
        forall|j: int| lo <= j < index ==> spec_probe_contributes(env, j) is None,
        spec_probe_contributes(env, index) is Some,
    ensures
        spec_registry_scan(env, lo) == spec_probe_contributes(env, index),
    decreases index - lo,
{
    if lo < index {
        assert(spec_probe_contributes(env, lo) is None);
        lemma_registry_scan_from(env, lo + 1, index);
    }
}

/// The registry scan returns the hit of the earliest probe that has one:
/// if every probe before `index` contributes nothing and the probe at
/// `index` contributes a validating candidate, that candidate is the
/// scan's result — the probes after `index` cannot affect it.
pub proof fn lemma_registry_first_hit(env: EnvironmentView, index: int)
    requires
        0 <= index < spec_probe_count(),
        forall|j: int| 0 <= j < index ==> spec_probe_contributes(env, j) is None,
        spec_probe_contributes(env, index) is Some,
    ensures
        spec_registry_scan(env, 0) == spec_probe_contributes(env, index),
{
    lemma_registry_scan_from(env, 0, index);
}

} // verus!
