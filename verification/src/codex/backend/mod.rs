pub mod command_runner;
pub mod local_fs;
pub mod wsl_command;

use vstd::prelude::*;

use crate::codex::backend::command_runner::CommandRunner;
use crate::codex::backend::local_fs::{LocalFsBackend, SessionFiles};
use crate::codex::backend::wsl_command::WslCommandBackend;

verus! {

#[verifier::external_type_specification]
#[verifier::external_body]
pub struct ExIoError(std::io::Error);

/// `std::io::Error::other(message)`; nothing is claimed of the error value.
#[verifier::external_body]
pub(crate) fn io_error_other(message: String) -> std::io::Error {
    std::io::Error::other(message)
}

/// `std::io::Error::new(ErrorKind::InvalidInput, message)`; nothing is claimed of the error value.
#[verifier::external_body]
pub(crate) fn io_error_invalid_input(message: &str) -> std::io::Error {
    std::io::Error::new(std::io::ErrorKind::InvalidInput, message)
}

/// A session log file that a backend can read, with what is known of it.
/// `modified_at` counts nanoseconds since the Unix epoch.
#[derive(Debug, Clone, PartialEq, Eq)]
pub struct SessionCandidate {
    pub session_id: String,
    pub backend_key: String,
    pub path: String,
    pub modified_at: u128,
    pub size_bytes: u64,
    pub had_recent_append: bool,
}

/// Where session logs come from: the local file system, or a WSL distribution.
pub trait SessionBackend {
    /// The name of the kind of backend.
    spec fn kind_spec(&self) -> Seq<char>;

    /// The sessions root as the backend shows it.
    spec fn display_spec(&self) -> Seq<char>;

    fn backend_kind(&self) -> (r: &'static str)
        ensures
            r@ == self.kind_spec();

    fn sessions_root_display(&self) -> (r: &str)
        ensures
            r@ == self.display_spec();

    fn sessions_root_available(&self) -> bool;
    fn select_active_session(&mut self) -> std::io::Result<Option<SessionCandidate>>;
    fn read_new_lines(&mut self, session: &SessionCandidate) -> std::io::Result<Vec<String>>;
}

/// The backend the monitor polls: local session logs, or those of a WSL distribution.
pub enum AnyBackend<F: SessionFiles, R: CommandRunner> {
    Local(LocalFsBackend<F>),
    Wsl(WslCommandBackend<R>),
}

impl<F: SessionFiles, R: CommandRunner> SessionBackend for AnyBackend<F, R> {
    open spec fn kind_spec(&self) -> Seq<char> {
        match self {
            AnyBackend::Local(backend) => backend.kind_spec(),
            AnyBackend::Wsl(backend) => backend.kind_spec(),
        }
    }

    open spec fn display_spec(&self) -> Seq<char> {
        match self {
            AnyBackend::Local(backend) => backend.display_spec(),
            AnyBackend::Wsl(backend) => backend.display_spec(),
        }
    }

    fn backend_kind(&self) -> (r: &'static str) {
        match self {
            AnyBackend::Local(backend) => backend.backend_kind(),
            AnyBackend::Wsl(backend) => backend.backend_kind(),
        }
    }

    fn sessions_root_display(&self) -> (r: &str) {
        match self {
            AnyBackend::Local(backend) => backend.sessions_root_display(),
            AnyBackend::Wsl(backend) => backend.sessions_root_display(),
        }
    }

    fn sessions_root_available(&self) -> bool {
        match self {
            AnyBackend::Local(backend) => backend.sessions_root_available(),
            AnyBackend::Wsl(backend) => backend.sessions_root_available(),
        }
    }

    fn select_active_session(&mut self) -> std::io::Result<Option<SessionCandidate>> {
        match self {
            AnyBackend::Local(backend) => backend.select_active_session(),
            AnyBackend::Wsl(backend) => backend.select_active_session(),
        }
    }

    fn read_new_lines(&mut self, session: &SessionCandidate) -> std::io::Result<Vec<String>> {
        match self {
            AnyBackend::Local(backend) => backend.read_new_lines(session),
            AnyBackend::Wsl(backend) => backend.read_new_lines(session),
        }
    }
}

} // verus!
