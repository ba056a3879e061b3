//! End-to-end discovery scenarios, against in-memory environments, and
//! exchange-by-exchange runs of the discovery machine.

use find_git::Action;
use find_git::Discovery;
use find_git::Environment;
use find_git::Event;
use find_git::Platform;
use find_git::RunOutcome;
use find_git::git_path;

// Records one run of the discovery machine: which registry probes were
// read, which candidates were validated, and the final result.
struct Trace {
    registry_reads: Vec<usize>,
    validations: Vec<Vec<u8>>,
    result: Option<Vec<u8>>,
}

// Drives the machine against the given environment, recording every
// exchange.
fn drive(env: &Environment) -> Trace {
    let mut trace = Trace { registry_reads: Vec::new(), validations: Vec::new(), result: None };
    let (mut machine, mut action) = Discovery::new(env.platform);
    loop {
        match action {
            Action::RunLocate => {
                let output = env.locate_output.clone();
                let (m, a) = machine.step(Event::LocateOutput { output });
                machine = m;
                action = a;
            }
            Action::ReadRegistry { index } => {
                trace.registry_reads.push(index);
                let value = env.registry_values.get(index).cloned().flatten();
                let (m, a) = machine.step(Event::RegistryValue { value });
                machine = m;
                action = a;
            }
            Action::Validate { candidate } => {
                trace.validations.push(candidate.clone());
                let outcome = if env.valid_paths.contains(&candidate) {
                    RunOutcome::Completed { exit_code: 0 }
                } else {
                    RunOutcome::LaunchFailed
                };
                let (m, a) = machine.step(Event::Validated { outcome });
                machine = m;
                action = a;
            }
            Action::Finish { result } => {
                trace.result = result;
                return trace;
            }
        }
    }
}

#[test]
fn path_hit_returns_without_registry_reads() {
    let env = Environment {
        platform: Platform::Windows,
        locate_output: Some(b"C:\\Git\\cmd\\git.exe\r\n".to_vec()),
        registry_values: vec![
            Some(b"C:\\Elsewhere".to_vec()),
            Some(b"C:\\Elsewhere".to_vec()),
            Some(b"C:\\Elsewhere".to_vec()),
            Some(b"C:\\Elsewhere".to_vec()),
            Some(b"C:\\Elsewhere".to_vec()),
        ],
        valid_paths: vec![
            b"C:\\Git\\cmd\\git.exe".to_vec(),
            b"C:\\Elsewhere\\bin\\git.exe".to_vec(),
        ],
    };
    assert_eq!(git_path(&env), Some(b"C:\\Git\\cmd\\git.exe".to_vec()));

    let trace = drive(&env);
    assert_eq!(trace.result, Some(b"C:\\Git\\cmd\\git.exe".to_vec()));
    assert_eq!(trace.registry_reads, Vec::<usize>::new());
    assert_eq!(trace.validations, vec![b"C:\\Git\\cmd\\git.exe".to_vec()]);
}

#[test]
fn posix_path_hit() {
    let env = Environment {
        platform: Platform::Posix,
        locate_output: Some(b"/usr/bin/git\n".to_vec()),
        registry_values: Vec::new(),
        valid_paths: vec![b"/usr/bin/git".to_vec()],
    };
    assert_eq!(git_path(&env), Some(b"/usr/bin/git".to_vec()));
}

#[test]
fn posix_locate_unavailable_returns_none() {
    let env = Environment {
        platform: Platform::Posix,
        locate_output: None,
        registry_values: Vec::new(),
        valid_paths: vec![b"/usr/bin/git".to_vec()],
    };
    assert_eq!(git_path(&env), None);
}

#[test]
fn posix_candidate_that_fails_validation_returns_none() {
    let env = Environment {
        platform: Platform::Posix,
        locate_output: Some(b"/usr/bin/git\n".to_vec()),
        registry_values: Vec::new(),
        valid_paths: Vec::new(),
    };
    assert_eq!(git_path(&env), None);
}

#[test]
fn windows_locate_unavailable_falls_through_to_registry() {
    let env = Environment {
        platform: Platform::Windows,
        locate_output: None,
        registry_values: vec![Some(b"C:\\Git".to_vec()), None, None, None, None],
        valid_paths: vec![b"C:\\Git\\bin\\git.exe".to_vec()],
    };
    assert_eq!(git_path(&env), Some(b"C:\\Git\\bin\\git.exe".to_vec()));

    let trace = drive(&env);
    assert_eq!(trace.registry_reads, vec![0]);
}

#[test]
fn windows_empty_locate_output_falls_through_to_registry() {
    let env = Environment {
        platform: Platform::Windows,
        locate_output: Some(b"\r\n".to_vec()),
        registry_values: vec![Some(b"C:\\Git".to_vec()), None, None, None, None],
        valid_paths: vec![b"C:\\Git\\bin\\git.exe".to_vec()],
    };
    assert_eq!(git_path(&env), Some(b"C:\\Git\\bin\\git.exe".to_vec()));
}

#[test]
fn registry_probes_stop_at_first_validating_hit() {
    // Only the third probe holds a validating entry; the fourth and fifth
    // are never read.
    let env = Environment {
        platform: Platform::Windows,
        locate_output: None,
        registry_values: vec![
            None,
            Some(b"C:\\Broken".to_vec()),
            Some(b"C:\\Git64".to_vec()),
            Some(b"C:\\Later".to_vec()),
            Some(b"C:\\Later".to_vec()),
        ],
        valid_paths: vec![
            b"C:\\Git64\\bin\\git.exe".to_vec(),
            b"C:\\Later\\bin\\git.exe".to_vec(),
        ],
    };
    assert_eq!(git_path(&env), Some(b"C:\\Git64\\bin\\git.exe".to_vec()));

    let trace = drive(&env);
    assert_eq!(trace.registry_reads, vec![0, 1, 2]);
    assert_eq!(
        trace.validations,
        vec![b"C:\\Broken\\bin\\git.exe".to_vec(), b"C:\\Git64\\bin\\git.exe".to_vec()]
    );
    assert_eq!(trace.result, Some(b"C:\\Git64\\bin\\git.exe".to_vec()));
}

#[test]
fn registry_probes_are_read_in_the_fixed_order() {
    let env = Environment {
        platform: Platform::Windows,
        locate_output: None,
        registry_values: vec![None, None, None, None, None],
        valid_paths: Vec::new(),
    };
    assert_eq!(git_path(&env), None);

    let trace = drive(&env);
    assert_eq!(trace.registry_reads, vec![0, 1, 2, 3, 4]);
    assert_eq!(trace.result, None);
}

#[test]
fn registry_hit_that_fails_validation_is_passed_over() {
    // The first probe yields a directory whose binary does not launch; the
    // fourth probe's does.
    let env = Environment {
        platform: Platform::Windows,
        locate_output: None,
        registry_values: vec![
            Some(b"C:\\Stale".to_vec()),
            None,
            None,
            Some(b"C:\\Good".to_vec()),
            None,
        ],
        valid_paths: vec![b"C:\\Good\\bin\\git.exe".to_vec()],
    };
    assert_eq!(git_path(&env), Some(b"C:\\Good\\bin\\git.exe".to_vec()));

    let trace = drive(&env);
    assert_eq!(trace.registry_reads, vec![0, 1, 2, 3]);
}

#[test]
fn all_probes_exhausted_returns_none() {
    let env = Environment {
        platform: Platform::Windows,
        locate_output: None,
        registry_values: vec![
            Some(b"C:\\One".to_vec()),
            Some(b"C:\\Two".to_vec()),
            Some(b"C:\\Three".to_vec()),
            Some(b"C:\\Four".to_vec()),
            Some(b"C:\\Five".to_vec()),
        ],
        valid_paths: Vec::new(),
    };
    assert_eq!(git_path(&env), None);

    let trace = drive(&env);
    assert_eq!(trace.registry_reads, vec![0, 1, 2, 3, 4]);
    assert_eq!(trace.validations.len(), 5);
    assert_eq!(trace.result, None);
}

#[test]
fn install_path_under_first_descriptor_end_to_end() {
    // No tool on the search path; the recent-installer location holds
    // InstallPath = C:\Tools\Target, and the derived binary validates.
    let env = Environment {
        platform: Platform::Windows,
        locate_output: None,
        registry_values: vec![Some(b"C:\\Tools\\Target".to_vec()), None, None, None, None],
        valid_paths: vec![b"C:\\Tools\\Target\\bin\\git.exe".to_vec()],
    };
    assert_eq!(git_path(&env), Some(b"C:\\Tools\\Target\\bin\\git.exe".to_vec()));
}

#[test]
fn returned_path_always_validates() {
    let envs = vec![
        Environment {
            platform: Platform::Windows,
            locate_output: Some(b"C:\\A\\git.exe\n".to_vec()),
            registry_values: vec![Some(b"C:\\B".to_vec()), None, None, None, None],
            valid_paths: vec![b"C:\\B\\bin\\git.exe".to_vec()],
        },
        Environment {
            platform: Platform::Posix,
            locate_output: Some(b"/usr/bin/git\n".to_vec()),
            registry_values: Vec::new(),
            valid_paths: vec![b"/usr/bin/git".to_vec()],
        },
        Environment {
            platform: Platform::Windows,
            locate_output: None,
            registry_values: vec![None, None, None, None, None],
            valid_paths: vec![b"C:\\unused".to_vec()],
        },
    ];
    for env in envs {
        match git_path(&env) {
            Some(path) => assert!(env.valid_paths.contains(&path)),
            None => {}
        }
    }
}
