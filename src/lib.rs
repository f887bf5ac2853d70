//! Starting, supervising and keeping installed the companion worker binary of a desktop
//! application: shell-safe quoting, the per-host invocation, the installer's and the
//! version check's decisions, and the watcher of a spawned worker.
use vstd::prelude::*;

pub mod command;
pub mod escape;
pub mod install;
pub mod serve;
pub mod supervisor;
pub mod sync;

pub use command::{create_command, user_shell, Host, Invocation, Program};
pub use escape::shell_escape;
pub use install::{cli_install_path, install_outcome, install_precheck, is_cli_installed, InstallError};
pub use serve::{serve_args, serve_command, serve_envs, Config, ServerConfig};
pub use supervisor::{ExitStatus, LogLevel, ProcessEvent, Reaction, Supervisor};
pub use sync::{sync_step, SyncAction, SyncError, SyncEvent, Version, VersionOutput};

verus! {

} // verus!
