//! The fixed registry fallback configuration.
//!
//! When Git is not on the search path of a Windows-family host, a short list
//! of well-known registry locations may still reveal where it was installed.
//! Each location names a root scope, a subkey and a value; the value, when
//! present, holds the install directory, under which the binary sits at
//! `bin\git.exe`.

use vstd::prelude::*;

verus! {

/// A root scope of the configuration registry.
#[derive(Clone, Copy, Debug, PartialEq, Eq, Structural)]
pub enum RegistryScope {
    /// The system-wide root (`HKEY_LOCAL_MACHINE`).
    SystemWide,
    /// The per-user root (`HKEY_CURRENT_USER`).
    PerUser,
}

/// One place to look for Git's install directory: a registry value, read
/// from `subkey` under the root that `scope` names.
pub struct RegistryProbe {
    pub scope: RegistryScope,
    pub subkey: &'static str,
    pub value_name: &'static str,
}

/// The subkey written by recent Git for Windows installers.
pub open spec fn spec_subkey_recent() -> Seq<char> {
    "Software\\GitForWindows"@
}

/// The legacy uninstall-registry subkey of a 32-bit install.
pub open spec fn spec_subkey_32_bit() -> Seq<char> {
    "SOFTWARE\\Microsoft\\Windows\\CurrentVersion\\Uninstall\\Git_is1"@
}

/// The legacy uninstall-registry subkey of a 64-bit install.
pub open spec fn spec_subkey_64_bit() -> Seq<char> {
    "SOFTWARE\\Wow6432Node\\Microsoft\\Windows\\CurrentVersion\\Uninstall\\Git_is1"@
}

/// The value name used by the recent-installer subkey.
pub open spec fn spec_value_install_path() -> Seq<char> {
    "InstallPath"@
}

/// The value name used by both legacy uninstall subkeys.
pub open spec fn spec_value_install_location() -> Seq<char> {
    "InstallLocation"@
}

/// How many registry locations are probed.
pub open spec fn spec_probe_count() -> int {
    5
}

/// The registry locations to probe, in the exact order discovery tries them:
/// the recent-installer key system-wide first, then the 32-bit and 64-bit
/// legacy uninstall keys per-user, then the same two system-wide.
pub fn registry_probes() -> (r: Vec<RegistryProbe>)
    ensures
        r@.len() == spec_probe_count(),
        r@[0].scope == RegistryScope::SystemWide,
        r@[0].subkey@ == spec_subkey_recent(),
        r@[0].value_name@ == spec_value_install_path(),
        r@[1].scope == RegistryScope::PerUser,
        r@[1].subkey@ == spec_subkey_32_bit(),
        r@[1].value_name@ == spec_value_install_location(),
        r@[2].scope == RegistryScope::PerUser,
        r@[2].subkey@ == spec_subkey_64_bit(),
        r@[2].value_name@ == spec_value_install_location(),
        r@[3].scope == RegistryScope::SystemWide,
        r@[3].subkey@ == spec_subkey_32_bit(),
        r@[3].value_name@ == spec_value_install_location(),
        r@[4].scope == RegistryScope::SystemWide,
        r@[4].subkey@ == spec_subkey_64_bit(),
        r@[4].value_name@ == spec_value_install_location(),
{
    let mut r: Vec<RegistryProbe> = Vec::new();
    r.push(RegistryProbe {
        scope: RegistryScope::SystemWide,
        subkey: "Software\\GitForWindows",
        value_name: "InstallPath",
    });
    r.push(RegistryProbe {
        scope: RegistryScope::PerUser,
        subkey: "SOFTWARE\\Microsoft\\Windows\\CurrentVersion\\Uninstall\\Git_is1",
        value_name: "InstallLocation",
    });
    r.push(RegistryProbe {
        scope: RegistryScope::PerUser,
        subkey: "SOFTWARE\\Wow6432Node\\Microsoft\\Windows\\CurrentVersion\\Uninstall\\Git_is1",
        value_name: "InstallLocation",
    });
    r.push(RegistryProbe {
        scope: RegistryScope::SystemWide,
        subkey: "SOFTWARE\\Microsoft\\Windows\\CurrentVersion\\Uninstall\\Git_is1",
        value_name: "InstallLocation",
    });
    r.push(RegistryProbe {
        scope: RegistryScope::SystemWide,
        subkey: "SOFTWARE\\Wow6432Node\\Microsoft\\Windows\\CurrentVersion\\Uninstall\\Git_is1",
        value_name: "InstallLocation",
    });
    r
}

/// A path separator byte: backslash or forward slash.
pub open spec fn is_separator(b: u8) -> bool {
    b == 92 || b == 47
}

/// The relative path of the binary under an install directory: `bin\git.exe`.
pub open spec fn spec_binary_rel_path() -> Seq<u8> {
    seq![98u8, 105u8, 110u8, 92u8, 103u8, 105u8, 116u8, 46u8, 101u8, 120u8, 101u8]
}

/// The candidate path derived from an install directory read out of the
/// registry: the directory joined with `bin\git.exe`, inserting a backslash
/// unless the directory is empty or already ends with a separator.
pub open spec fn spec_candidate(install: Seq<u8>) -> Seq<u8> {
    if install.len() == 0 {
        spec_binary_rel_path()
    } else if is_separator(install.last()) {
        install + spec_binary_rel_path()
    } else {
        install + seq![92u8] + spec_binary_rel_path()
    }
}

/// Joins an install directory with the binary's relative path `bin\git.exe`.
pub fn candidate_from_install_path(install: &Vec<u8>) -> (r: Vec<u8>)
    ensures
        r@ == spec_candidate(install@),
{
    let mut r: Vec<u8> = Vec::new();
    let mut j: usize = 0;
    while j < install.len()
        invariant
            0 <= j <= install.len(),
            r@ == install@.subrange(0, j as int),
        decreases install.len() - j,
    {
        r.push(install[j]);
        j = j + 1;
        assert(r@ =~= install@.subrange(0, j as int));
    }
    assert(r@ =~= install@);
    if r.len() > 0 {
        let last = r[r.len() - 1];
        if !(last == 92 || last == 47) {
            r.push(92);
        }
    }
    r.push(98);
    r.push(105);
    r.push(110);
    r.push(92);
    r.push(103);
    r.push(105);
    r.push(116);
    r.push(46);
    r.push(101);
    r.push(120);
    r.push(101);
    assert(r@ =~= spec_candidate(install@));
    r
}

} // verus!
