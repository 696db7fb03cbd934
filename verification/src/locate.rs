//! Finding the runtime binary that executes the bundled server.
//!
//! Three places are tried in order: a path of the user's choosing, taken from
//! an environment variable and accepted only if it exists; the binary bundled
//! under the runtime directory for the platform at hand; and the bare command
//! name, left to the system's search path. The host looks at the environment
//! and the disk; the choice is made here, and it never fails.

use vstd::prelude::*;

verus! {

/// The environment variable that names a runtime binary of the user's choosing.
pub const NODE_PATH_VARIABLE: &'static str = "ECOLAV_NODE_PATH";

/// The platform that the host runs on, as far as the binary's name goes.
#[derive(Clone, Copy, Debug, PartialEq, Eq, Structural)]
pub enum Platform {
    Windows,
    Other,
}

/// What the host found of the user's choice: the path that the environment
/// variable holds, and whether anything exists there.
#[derive(Debug, PartialEq, Eq)]
pub struct CustomBinary {
    pub path: String,
    pub exists: bool,
}

/// The binary to run.
#[derive(Debug, PartialEq, Eq)]
pub enum NodeBinary {
    /// The path of the user's choosing.
    Custom(String),
    /// The binary bundled under the runtime directory, at
    /// [`bundled_components`].
    Bundled,
    /// The command [`system_command`], found by the system's search path.
    System,
}

/// The mathematical value of a [`NodeBinary`].
pub enum NodeBinaryView {
    Custom(Seq<char>),
    Bundled,
    System,
}

impl View for NodeBinary {
    type V = NodeBinaryView;

    open spec fn view(&self) -> NodeBinaryView {
        match self {
            NodeBinary::Custom(path) => NodeBinaryView::Custom(path@),
            NodeBinary::Bundled => NodeBinaryView::Bundled,
            NodeBinary::System => NodeBinaryView::System,
        }
    }
}

/// The path of the bundled binary below the runtime directory, component by
/// component.
pub open spec fn bundled_path(platform: Platform) -> Seq<Seq<char>> {
    match platform {
        Platform::Windows => seq!["node"@, "node.exe"@],
        Platform::Other => seq!["node"@, "bin"@, "node"@],
    }
}

/// The name under which the system's search path knows the binary.
pub open spec fn system_name(platform: Platform) -> Seq<char> {
    match platform {
        Platform::Windows => "node.exe"@,
        Platform::Other => "node"@,
    }
}

/// The choice among the three places: the user's path if it exists, else the
/// bundled binary if it exists, else the system's.
pub open spec fn located(custom: Option<CustomBinary>, bundled_exists: bool) -> NodeBinaryView {
    match custom {
        Some(c) if c.exists => NodeBinaryView::Custom(c.path@),
        _ => if bundled_exists {
            NodeBinaryView::Bundled
        } else {
            NodeBinaryView::System
        },
    }
}

/// The path of the bundled binary below the runtime directory, component by
/// component.
pub fn bundled_components(platform: Platform) -> (parts: Vec<&'static str>)
    ensures
        parts@.len() == bundled_path(platform).len(),
        forall|i: int| 0 <= i < parts@.len() ==> (#[trigger] parts@[i])@ == bundled_path(platform)[i],
{
    let mut parts: Vec<&'static str> = Vec::new();
    match platform {
        Platform::Windows => {
            parts.push("node");
            parts.push("node.exe");
        },
        Platform::Other => {
            parts.push("node");
            parts.push("bin");
            parts.push("node");
        },
    }
    parts
}

/// The name under which the system's search path knows the binary.
pub fn system_command(platform: Platform) -> (name: &'static str)
    ensures
        name@ == system_name(platform),
{
    match platform {
        Platform::Windows => "node.exe",
        Platform::Other => "node",
    }
}

/// Chooses the binary to run. `custom` is `None` where the environment
/// variable is not set; `bundled_exists` says whether the bundled binary of
/// the platform at hand is there. A path of the user's choosing that exists
/// wins over everything else.
pub fn detect_node_binary(
    custom: Option<CustomBinary>,
    bundled_exists: bool,
) -> (binary: NodeBinary)
    ensures
        binary@ == located(custom, bundled_exists),
        custom is Some && custom->0.exists ==> binary@ == NodeBinaryView::Custom(custom->0.path@),
{
    match custom {
        Some(c) => {
            if c.exists {
                return NodeBinary::Custom(c.path);
            }
        },
        None => {},
    }
    if bundled_exists {
        NodeBinary::Bundled
    } else {
        NodeBinary::System
    }
}

} // verus!
