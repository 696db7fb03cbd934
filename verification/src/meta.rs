//! The bundle descriptor: the small record that says which build of the
//! server a directory holds.

use vstd::prelude::*;
use vstd::string::*;

verus! {

/// The name of the descriptor file, in the template and in the runtime
/// directory alike.
pub const BACKEND_META_FILE: &'static str = ".bundle-meta.json";

/// A bundle descriptor. Only `hash` decides anything; the other fields are
/// there to be read by people.
#[derive(Debug, PartialEq, Eq)]
pub struct BackendMeta {
    pub hash: String,
    pub generated_at: Option<String>,
    pub node_version: Option<String>,
}

impl BackendMeta {
    /// Two descriptors stand for the same build when their hashes are equal.
    pub open spec fn same_build(&self, other: &BackendMeta) -> bool {
        self.hash@ == other.hash@
    }

    /// Whether the two descriptors stand for the same build.
    pub fn matches(&self, other: &BackendMeta) -> (r: bool)
        ensures
            r == self.same_build(other),
    {
        self.hash == other.hash
    }
}

/// Standing for the same build is an equivalence: it holds of a descriptor
/// and itself, in both directions, and along chains.
pub proof fn law_same_build_is_an_equivalence(a: BackendMeta, b: BackendMeta, c: BackendMeta)
    ensures
        a.same_build(&a),
        a.same_build(&b) == b.same_build(&a),
        a.same_build(&b) && b.same_build(&c) ==> a.same_build(&c),
{
}

/// Why a descriptor could not be had.
#[derive(Clone, Copy, Debug, PartialEq, Eq, Structural)]
pub enum MetadataFault {
    /// The file is missing or could not be read.
    Unreadable,
    /// The file was read and is no descriptor.
    Malformed,
}

/// A descriptor that could not be had: the file, and what went wrong with it.
#[derive(Debug, PartialEq, Eq)]
pub struct MetadataError {
    pub fault: MetadataFault,
    /// The path of the file, as the host displays paths.
    pub path: String,
    /// What the system, or the parser, said.
    pub diagnostic: String,
}

/// What an attempt to read a descriptor file came to.
#[derive(Debug, PartialEq, Eq)]
pub enum MetaSource {
    /// The file held this descriptor.
    Parsed(BackendMeta),
    /// The file is missing or could not be read; the text is the system's.
    Unreadable(String),
    /// The file is no descriptor; the text is the parser's.
    Malformed(String),
}

/// The text of a metadata error. A file that could not be read is reported in
/// the system's words; one that is no descriptor is reported with its path.
pub open spec fn metadata_error_text(
    fault: MetadataFault,
    path: Seq<char>,
    diagnostic: Seq<char>,
) -> Seq<char> {
    match fault {
        MetadataFault::Unreadable => diagnostic,
        MetadataFault::Malformed => "Metadata inválido em "@ + path + ": "@ + diagnostic,
    }
}

impl MetadataError {
    /// The text of the error.
    pub fn message(&self) -> (s: String)
        ensures
            s@ == metadata_error_text(self.fault, self.path@, self.diagnostic@),
    {
        match self.fault {
            MetadataFault::Unreadable => self.diagnostic.clone(),
            MetadataFault::Malformed => {
                let mut s = String::from_str("Metadata inválido em ");
                s.append(self.path.as_str());
                s.append(": ");
                s.append(self.diagnostic.as_str());
                s
            },
        }
    }
}

/// Turns what reading the descriptor at `path` came to into the descriptor or
/// the error. It is the descriptor exactly when the file held one; the error
/// names the path and keeps the diagnostic.
pub fn read_backend_meta(path: &str, source: MetaSource) -> (r: Result<BackendMeta, MetadataError>)
    ensures
        match source {
            MetaSource::Parsed(meta) => r == Ok::<BackendMeta, MetadataError>(meta),
            MetaSource::Unreadable(d) => r is Err && r->Err_0.fault == MetadataFault::Unreadable
                && r->Err_0.path@ == path@ && r->Err_0.diagnostic == d,
            MetaSource::Malformed(d) => r is Err && r->Err_0.fault == MetadataFault::Malformed
                && r->Err_0.path@ == path@ && r->Err_0.diagnostic == d,
        },
{
    match source {
        MetaSource::Parsed(meta) => Ok(meta),
        MetaSource::Unreadable(diagnostic) => Err(
            MetadataError {
                fault: MetadataFault::Unreadable,
                path: String::from_str(path),
                diagnostic,
            },
        ),
        MetaSource::Malformed(diagnostic) => Err(
            MetadataError {
                fault: MetadataFault::Malformed,
                path: String::from_str(path),
                diagnostic,
            },
        ),
    }
}

} // verus!
