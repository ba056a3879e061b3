//! A cross-platform library which returns the full path to the Git binary
//! if it can be found.
//!
//! Discovery first asks the platform's locate command (`which` or `where`)
//! for `git` and validates the first path it names by launching it with a
//! version flag.  On Windows-family hosts a miss there falls through to
//! five well-known registry locations, tried in a fixed order; the first
//! whose install directory yields a validating `bin\git.exe` wins.  Absence
//! is a normal outcome, never an error, and every internal failure — an
//! unavailable locate command, output that is not valid text or holds no
//! lines, a missing registry key — quietly degrades to "this probe
//! contributed nothing".
//!
//! The policy is verified as the [`Discovery`] state machine, which a
//! driver with access to the host advances one probe at a time, and as the
//! orchestrator [`git_path`], which runs the same machine to completion
//! against an in-memory [`Environment`] for testing.

use vstd::prelude::*;

mod bytes;
mod discover;
mod locate;
mod machine;
mod outcome;
mod platform;
mod registry;

pub use discover::Environment;
pub use discover::EnvironmentView;
pub use discover::git_path;
pub use discover::lemma_discover_validates;
pub use discover::lemma_locate_unavailable_result;
pub use discover::lemma_path_hit_wins;
pub use discover::lemma_registry_first_hit;
pub use discover::spec_probe_contributes;
pub use discover::spec_discover;
pub use discover::spec_fallthrough_result;
pub use discover::spec_path_probe;
pub use discover::spec_registry_scan;
pub use locate::parse_locate_output;
pub use locate::spec_parse_locate;
pub use machine::Action;
pub use machine::ActionView;
pub use machine::Discovery;
pub use machine::DiscoveryView;
pub use machine::Event;
pub use machine::EventView;
pub use machine::PhaseView;
pub use machine::lemma_locate_unavailable_falls_through;
pub use machine::lemma_path_hit_skips_registry;
pub use machine::lemma_registry_probes_in_order;
pub use machine::opt_bytes_view;
pub use machine::spec_accepts;
pub use machine::spec_fallthrough;
pub use machine::spec_next_probe;
pub use machine::spec_pending;
pub use machine::spec_step;
pub use outcome::RunOutcome;
pub use outcome::git_ran_ok;
pub use platform::Platform;
pub use platform::locate_command;
pub use platform::tool_name;
pub use platform::version_flag;
pub use registry::RegistryProbe;
pub use registry::RegistryScope;
pub use registry::candidate_from_install_path;
pub use registry::registry_probes;
pub use registry::spec_candidate;

verus! {

} // verus!
