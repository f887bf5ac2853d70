//! Keeping the installed worker binary at least as new as the application.
use vstd::prelude::*;

use crate::command::is_unicode_whitespace;
use crate::install::InstallError;

verus! {

/// A semantic version's three numeric fields.
#[derive(PartialEq, Eq, Structural, Clone, Copy, Debug)]
pub struct Version {
    pub major: u64,
    pub minor: u64,
    pub patch: u64,
}

/// `a` comes before `b`, field by field.
pub open spec fn version_lt(a: Version, b: Version) -> bool {
    a.major < b.major || (a.major == b.major && (a.minor < b.minor || (a.minor == b.minor
        && a.patch < b.patch)))
}

/// Whether `a` comes before `b`, field by field.
pub fn version_older(a: Version, b: Version) -> (r: bool)
    ensures
        r == version_lt(a, b),
{
    if a.major != b.major {
        a.major < b.major
    } else if a.minor != b.minor {
        a.minor < b.minor
    } else {
        a.patch < b.patch
    }
}

/// `s` without its leading Unicode whitespace.
pub open spec fn trim_start(s: Seq<char>) -> Seq<char>
    decreases s.len(),
{
    if s.len() > 0 && is_unicode_whitespace(s[0]) {
        trim_start(s.drop_first())
    } else {
        s
    }
}

/// `s` without its trailing Unicode whitespace.
pub open spec fn trim_end(s: Seq<char>) -> Seq<char>
    decreases s.len(),
{
    if s.len() > 0 && is_unicode_whitespace(s.last()) {
        trim_end(s.drop_last())
    } else {
        s
    }
}

/// `s` without leading and trailing Unicode whitespace.
pub open spec fn trimmed(s: Seq<char>) -> Seq<char> {
    trim_end(trim_start(s))
}

/// The numeric fields of the semantic version that a text spells, as
/// `semver::Version::parse` reads it; `None` where it spells none.
pub uninterp spec fn semver_fields(s: Seq<char>) -> Option<(u64, u64, u64)>;

/// Relies on `str::trim`: the text without leading and trailing Unicode whitespace.
#[verifier::external_body]
fn trim_text(s: &str) -> (r: String)
    ensures
        r@ == trimmed(s@),
{
    s.trim().to_string()
}

/// Relies on `semver::Version::parse`: whether the text is a semantic version, and if
/// so its major, minor and patch numbers, else semver's description of the error.
#[verifier::external_body]
fn parse_version(s: &str) -> (r: Result<Version, String>)
    ensures
        match semver_fields(s@) {
            Some(f) => r == Ok::<Version, String>(Version { major: f.0, minor: f.1, patch: f.2 }),
            None => r is Err,
        },
{
    match semver::Version::parse(s) {
        Ok(v) => Ok(Version { major: v.major, minor: v.minor, patch: v.patch }),
        Err(e) => Err(e.to_string()),
    }
}

/// Why keeping the installed worker binary in step failed.
#[derive(Debug)]
pub enum SyncError {
    /// The home directory is unknown.
    NoInstallPath,
    /// The installed binary could not be started to ask for its version.
    VersionQueryFailure { reason: String },
    /// The installed binary's version query exited unsuccessfully.
    VersionQueryUnsuccessful,
    /// The installed binary's answer is not a semantic version, for the reason given.
    VersionParseFailure { raw: String, reason: String },
    /// Reinstalling failed.
    Install(InstallError),
}

/// What the installed binary answered to its version query.
#[derive(Debug)]
pub struct VersionOutput {
    pub success: bool,
    pub stdout: String,
}

/// Something that happened while keeping the installed binary in step.
#[derive(Debug)]
pub enum SyncEvent {
    /// The workflow starts, in a development build or not.
    Started { debug_build: bool },
    /// The installation was probed: whether it exists, and where it is.
    Probed { installed: bool, cli_path: Option<String> },
    /// The version query ran, or failed to start.
    VersionQueried { output: Result<VersionOutput, String>, app_version: Version },
    /// The reinstall ran.
    Reinstalled { result: Result<String, InstallError> },
}

/// What to do next.
#[derive(Debug)]
pub enum SyncAction {
    /// Check whether the binary is installed.
    Probe,
    /// Run the installed binary at this path with its version flag.
    QueryVersion { cli_path: String },
    /// Overwrite the installation; these are the installed and the application version.
    Reinstall { installed: Version, app: Version },
    /// Stop, with this result.
    Finish { result: Result<(), SyncError> },
}

/// The step after the installed version was read: reinstall exactly when it is older
/// than the application.
pub fn plan_for_versions(installed: Version, app: Version) -> (r: SyncAction)
    ensures
        version_lt(installed, app) ==> r == (SyncAction::Reinstall { installed, app }),
        !version_lt(installed, app) ==> r == (SyncAction::Finish { result: Ok(()) }),
{
    if version_older(installed, app) {
        SyncAction::Reinstall { installed, app }
    } else {
        SyncAction::Finish { result: Ok(()) }
    }
}

/// The step after the installed binary's trimmed answer `raw` was parsed into `parsed`.
pub fn plan_for_parsed(parsed: Result<Version, String>, raw: String, app: Version) -> (r:
    SyncAction)
    ensures
        match parsed {
            Err(reason) => r == (SyncAction::Finish {
                result: Err(SyncError::VersionParseFailure { raw, reason }),
            }),
            Ok(v) => if version_lt(v, app) {
                r == (SyncAction::Reinstall { installed: v, app })
            } else {
                r == (SyncAction::Finish { result: Ok(()) })
            },
        },
{
    match parsed {
        Ok(v) => plan_for_versions(v, app),
        Err(reason) => SyncAction::Finish {
            result: Err(SyncError::VersionParseFailure { raw, reason }),
        },
    }
}

/// What follows `event`. A development build stops at once, before any probe; a missing
/// installation stops without installing; an installed version older than the
/// application's leads to a reinstall, any other to a successful stop.
pub fn sync_step(event: SyncEvent) -> (r: SyncAction)
    ensures
        match event {
            SyncEvent::Started { debug_build } => if debug_build {
                r == (SyncAction::Finish { result: Ok(()) })
            } else {
                r == SyncAction::Probe
            },
            SyncEvent::Probed { installed, cli_path } => if !installed {
                r == (SyncAction::Finish { result: Ok(()) })
            } else {
                match cli_path {
                    Some(p) => r == (SyncAction::QueryVersion { cli_path: p }),
                    None => r == (SyncAction::Finish { result: Err(SyncError::NoInstallPath) }),
                }
            },
            SyncEvent::VersionQueried { output, app_version } => match output {
                Err(reason) => r == (SyncAction::Finish {
                    result: Err(SyncError::VersionQueryFailure { reason }),
                }),
                Ok(out) => if !out.success {
                    r == (SyncAction::Finish { result: Err(SyncError::VersionQueryUnsuccessful) })
                } else {
                    match semver_fields(trimmed(out.stdout@)) {
                        None => r matches SyncAction::Finish {
                            result: Err(SyncError::VersionParseFailure { raw, .. }),
                        } && raw@ == trimmed(out.stdout@),
                        Some(f) => {
                            let v = Version { major: f.0, minor: f.1, patch: f.2 };
                            if version_lt(v, app_version) {
                                r == (SyncAction::Reinstall { installed: v, app: app_version })
                            } else {
                                r == (SyncAction::Finish { result: Ok(()) })
                            }
                        },
                    }
                },
            },
            SyncEvent::Reinstalled { result } => match result {
                Ok(_) => r == (SyncAction::Finish { result: Ok(()) }),
                Err(e) => r == (SyncAction::Finish { result: Err(SyncError::Install(e)) }),
            },
        },
{
    match event {
        SyncEvent::Started { debug_build } => {
            if debug_build {
                SyncAction::Finish { result: Ok(()) }
            } else {
                SyncAction::Probe
            }
        },
        SyncEvent::Probed { installed, cli_path } => {
            if !installed {
                SyncAction::Finish { result: Ok(()) }
            } else {
                match cli_path {
                    Some(p) => SyncAction::QueryVersion { cli_path: p },
                    None => SyncAction::Finish { result: Err(SyncError::NoInstallPath) },
                }
            }
        },
        SyncEvent::VersionQueried { output, app_version } => match output {
            Err(reason) => SyncAction::Finish {
                result: Err(SyncError::VersionQueryFailure { reason }),
            },
            Ok(out) => {
                if !out.success {
                    SyncAction::Finish { result: Err(SyncError::VersionQueryUnsuccessful) }
                } else {
                    let raw = trim_text(out.stdout.as_str());
                    let parsed = parse_version(raw.as_str());
                    plan_for_parsed(parsed, raw, app_version)
                }
            },
        },
        SyncEvent::Reinstalled { result } => match result {
            Ok(_) => SyncAction::Finish { result: Ok(()) },
            Err(e) => SyncAction::Finish { result: Err(SyncError::Install(e)) },
        },
    }
}

} // verus!
