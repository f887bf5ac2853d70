//! Where the worker binary is installed, and the decisions around its installer.
use vstd::prelude::*;

verus! {

/// Why installing the worker binary failed.
#[derive(Debug)]
pub enum InstallError {
    /// The host is not a Unix-family system.
    PlatformUnsupported,
    /// No bundled worker binary next to the application.
    SidecarMissing,
    /// The installer script could not be written.
    ScriptWriteFailure { reason: String },
    /// The installer script could not be made executable.
    PermissionSetFailure { reason: String },
    /// The installer script could not be started.
    SpawnFailure { reason: String },
    /// The installer script exited unsuccessfully.
    ScriptExecutionFailure { stderr: String },
    /// The home directory is unknown.
    NoInstallPath,
}

/// `rel` appended to `base` as a path: a separator between them unless `base` is empty
/// or already ends in one.
pub open spec fn path_join(base: Seq<char>, rel: Seq<char>) -> Seq<char> {
    if base.len() == 0 || base.last() == '/' {
        base + rel
    } else {
        base + "/"@ + rel
    }
}

/// The fixed place of the installed binary under the home directory.
pub open spec fn install_path_under(home: Seq<char>) -> Seq<char> {
    path_join(path_join(home, ".opencode/bin"@), "opencode"@)
}

fn join_path(base: String, rel: &str) -> (r: String)
    ensures
        r@ == path_join(base@, rel@),
{
    let n = base.unicode_len();
    if n == 0 || base.as_str().get_char(n - 1) == '/' {
        base.concat(rel)
    } else {
        base.concat("/").concat(rel)
    }
}

/// Where the worker binary is installed, given the home directory if it is known.
pub fn cli_install_path(home: Option<String>) -> (r: Option<String>)
    ensures
        match home {
            Some(h) => r is Some && r->0@ == install_path_under(h@),
            None => r is None,
        },
{
    match home {
        Some(h) => Some(join_path(join_path(h, ".opencode/bin"), "opencode")),
        None => None,
    }
}

/// Whether the worker binary is installed, given whether its install path exists, or
/// nothing where no install path could be determined.
pub fn is_cli_installed(path_exists: Option<bool>) -> (r: bool)
    ensures
        r == (path_exists == Some(true)),
{
    match path_exists {
        Some(e) => e,
        None => false,
    }
}

/// The checks before the installer runs: a Unix-family host and a bundled worker binary.
pub fn install_precheck(unix: bool, sidecar_exists: bool) -> (r: Result<(), InstallError>)
    ensures
        !unix ==> r == Err::<(), InstallError>(InstallError::PlatformUnsupported),
        unix && !sidecar_exists ==> r == Err::<(), InstallError>(InstallError::SidecarMissing),
        unix && sidecar_exists ==> r is Ok,
{
    if !unix {
        Err(InstallError::PlatformUnsupported)
    } else if !sidecar_exists {
        Err(InstallError::SidecarMissing)
    } else {
        Ok(())
    }
}

/// The outcome of an installer run that exited successfully or not, with its error
/// output, given the install path if it is known.
pub fn install_outcome(exit_success: bool, stderr: String, install_path: Option<String>) -> (r:
    Result<String, InstallError>)
    ensures
        !exit_success ==> r == Err::<String, InstallError>(
            InstallError::ScriptExecutionFailure { stderr },
        ),
        exit_success && install_path is None ==> r == Err::<String, InstallError>(
            InstallError::NoInstallPath,
        ),
        exit_success && install_path is Some ==> r == Ok::<String, InstallError>(
            install_path->0,
        ),
{
    if !exit_success {
        return Err(InstallError::ScriptExecutionFailure { stderr });
    }
    match install_path {
        Some(p) => Ok(p),
        None => Err(InstallError::NoInstallPath),
    }
}

} // verus!
