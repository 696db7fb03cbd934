//! Planning the launch of the bundled server.
//!
//! The host looks at the disk and the environment, asks
//! [`spawn_backend_child`] for the plan, and starts the process as the plan
//! says: the binary of the plan runs the server entry file, with the runtime
//! directory as its working directory, the mode variable set, and both of its
//! output streams appended to the log file.

use vstd::prelude::*;
use vstd::string::*;
use crate::locate::{detect_node_binary, located, CustomBinary, NodeBinary};

verus! {

/// The entry file of the server, directly under the runtime directory.
pub const SERVER_ENTRY_FILE: &'static str = "scale-server.cjs";

/// The log file, directly under the runtime directory. It is created if it is
/// missing and only ever appended to.
pub const LOG_FILE: &'static str = "backend.log";

/// The environment variable that tells the server its mode.
pub const MODE_VARIABLE: &'static str = "NODE_ENV";

/// The mode in which the server runs under supervision.
pub const MODE_VALUE: &'static str = "production";

/// Why no child came to life.
#[derive(Debug, PartialEq, Eq)]
pub enum SpawnError {
    /// The runtime directory has no server entry file; the text is its path,
    /// as the host displays paths.
    EntrypointNotFound(String),
    /// The system could not start the process; the text is the system's.
    SpawnFailed(String),
}

impl SpawnError {
    /// The text of the error.
    pub open spec fn text(&self) -> Seq<char> {
        match self {
            SpawnError::EntrypointNotFound(path) => "Arquivo scale-server.cjs não encontrado em "@
                + path@,
            SpawnError::SpawnFailed(diagnostic) => diagnostic@,
        }
    }

    /// The text of the error.
    pub fn message(&self) -> (s: String)
        ensures
            s@ == self.text(),
    {
        match self {
            SpawnError::EntrypointNotFound(path) => {
                let mut s = String::from_str("Arquivo scale-server.cjs não encontrado em ");
                s.append(path.as_str());
                s
            },
            SpawnError::SpawnFailed(diagnostic) => diagnostic.clone(),
        }
    }
}

/// How to start the child.
#[derive(Debug, PartialEq, Eq)]
pub struct LaunchPlan {
    /// The binary to run.
    pub binary: NodeBinary,
    /// Its one argument: this file under the runtime directory.
    pub script: &'static str,
    /// The file under the runtime directory that takes both output streams.
    pub log_file: &'static str,
    /// The environment variable to set,
    pub mode_variable: &'static str,
    /// and its value.
    pub mode_value: &'static str,
}

/// Plans the launch. `entry_exists` says whether the server entry file is
/// there, and `entry_path` is its path as the host displays paths; `custom`
/// and `bundled_exists` are what the host found of the runtime binary. There
/// is a plan exactly when the entry file exists.
pub fn spawn_backend_child(
    entry_exists: bool,
    entry_path: &str,
    custom: Option<CustomBinary>,
    bundled_exists: bool,
) -> (r: Result<LaunchPlan, SpawnError>)
    ensures
        r is Ok <==> entry_exists,
        r is Ok ==> {
            &&& r->Ok_0.binary@ == located(custom, bundled_exists)
            &&& r->Ok_0.script@ == SERVER_ENTRY_FILE@
            &&& r->Ok_0.log_file@ == LOG_FILE@
            &&& r->Ok_0.mode_variable@ == MODE_VARIABLE@
            &&& r->Ok_0.mode_value@ == MODE_VALUE@
        },
        r is Err ==> (r->Err_0 matches SpawnError::EntrypointNotFound(path) && path@
            == entry_path@),
{
    if !entry_exists {
        return Err(SpawnError::EntrypointNotFound(String::from_str(entry_path)));
    }
    let binary = detect_node_binary(custom, bundled_exists);
    Ok(
        LaunchPlan {
            binary,
            script: SERVER_ENTRY_FILE,
            log_file: LOG_FILE,
            mode_variable: MODE_VARIABLE,
            mode_value: MODE_VALUE,
        },
    )
}

} // verus!
