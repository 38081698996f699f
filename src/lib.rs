//! Resolution of which Python interpreter to run, from the launcher's
//! command line and the state of the machine it runs on.

pub mod version;
pub mod shebang;
pub mod error;
pub mod listing;
pub mod venv;
pub mod cli;
pub mod search;

pub use cli::{version_from_flag, Action, Event, Next, Query, Resolver};
pub use error::Error;
pub use listing::list_executables;
pub use search::best_executable;
pub use shebang::{parse_python_shebang, version_from_shebang_line};
pub use venv::{relative_venv_path, venv_candidate_path, venv_executable_path};
pub use version::{parse_version, ExactVersion, RequestedVersion};
