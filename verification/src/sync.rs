//! Keeping the runtime directory in step with the packaged template.
//!
//! The host reads the two descriptors and asks [`needs_copy`] whether the
//! runtime is stale. If it is, the host holds the preserved configuration in
//! memory, if there is one, and carries out the steps of [`resync_steps`] in
//! order; the first step that fails ends the preparation with its error.
//!
//! What the steps do to a directory is written down over [`TreeModel`], a
//! directory as a mathematical value, and the laws at the end of this file
//! say what the whole operation comes to.

use vstd::prelude::*;
use crate::meta::{metadata_error_text, BackendMeta, MetadataError};

verus! {

/// The name under which the package ships the template directory.
pub const TEMPLATE_RESOURCE: &'static str = "backend";

/// The name of the runtime directory, below the host's data directory.
pub const RUNTIME_DIR_NAME: &'static str = "backend-runtime";

/// The one file of the runtime directory that outlives a resync. Its contents
/// are carried over as they are and never looked into.
pub const PRESERVED_CONFIG_FILE: &'static str = "rfid-config.json";

/// One step of a resync.
#[derive(Clone, Copy, Debug, PartialEq, Eq, Structural)]
pub enum SyncStep {
    /// Delete the runtime directory with all that is in it.
    RemoveRuntime,
    /// Copy every directory and file of the template to the same relative
    /// path under the runtime directory.
    CopyTemplate,
    /// Write the configuration held in memory over the one just copied.
    RestoreConfig,
}

/// The runtime is stale unless its descriptor could be read and stands for
/// the build of the template.
pub open spec fn stale(
    template: BackendMeta,
    runtime: Option<Result<BackendMeta, MetadataError>>,
) -> bool {
    match runtime {
        Some(Ok(meta)) => !meta.same_build(&template),
        _ => true,
    }
}

/// Whether the runtime directory has to be replaced. `runtime` is `None`
/// where the runtime has no descriptor file, else what reading it came to. A
/// missing or unreadable descriptor makes the runtime stale; it is no error.
pub fn needs_copy(
    template: &BackendMeta,
    runtime: &Option<Result<BackendMeta, MetadataError>>,
) -> (r: bool)
    ensures
        r == stale(*template, *runtime),
{
    match runtime {
        Some(Ok(meta)) => !meta.matches(template),
        _ => true,
    }
}

/// The steps of a resync: the runtime directory is removed if it exists, the
/// template is copied, and the configuration is restored if one was held.
pub open spec fn resync_plan(runtime_exists: bool, config_held: bool) -> Seq<SyncStep> {
    (if runtime_exists {
        seq![SyncStep::RemoveRuntime]
    } else {
        Seq::empty()
    }) + seq![SyncStep::CopyTemplate] + (if config_held {
        seq![SyncStep::RestoreConfig]
    } else {
        Seq::empty()
    })
}

/// The steps that replace a stale runtime, in the order in which they are
/// carried out.
pub fn resync_steps(runtime_exists: bool, config_held: bool) -> (steps: Vec<SyncStep>)
    ensures
        steps@ == resync_plan(runtime_exists, config_held),
{
    let mut steps: Vec<SyncStep> = Vec::new();
    if runtime_exists {
        steps.push(SyncStep::RemoveRuntime);
    }
    steps.push(SyncStep::CopyTemplate);
    if config_held {
        steps.push(SyncStep::RestoreConfig);
    }
    assert(steps@ =~= resync_plan(runtime_exists, config_held));
    steps
}

/// Why the runtime could not be brought up to date. Either way the
/// preparation has failed for good: a broken package does not mend itself.
#[derive(Debug, PartialEq, Eq)]
pub enum SyncError {
    /// The descriptor of the template could not be had.
    Metadata(MetadataError),
    /// Deleting, copying or writing failed; the text is the system's.
    Filesystem(String),
}

impl SyncError {
    /// The text of the error.
    pub open spec fn text(&self) -> Seq<char> {
        match self {
            SyncError::Metadata(e) => metadata_error_text(e.fault, e.path@, e.diagnostic@),
            SyncError::Filesystem(diagnostic) => diagnostic@,
        }
    }

    /// The text of the error.
    pub fn message(&self) -> (s: String)
        ensures
            s@ == self.text(),
    {
        match self {
            SyncError::Metadata(e) => e.message(),
            SyncError::Filesystem(diagnostic) => diagnostic.clone(),
        }
    }
}

// ----------------------------------------------------------------------
// Copying a tree
// ----------------------------------------------------------------------

/// What an entry of a directory walk is.
#[derive(Clone, Copy, Debug, PartialEq, Eq, Structural)]
pub enum EntryKind {
    Directory,
    File,
    /// Neither of the two: a link, a device, a socket.
    Other,
}

/// One operation of a tree copy. The number is the position of the entry in
/// the walk.
#[derive(Clone, Copy, Debug, PartialEq, Eq, Structural)]
pub enum CopyOp {
    /// Create the directory, and its parents, at the entry's relative path
    /// under the destination.
    CreateDir(usize),
    /// Create the parents of the entry's relative path under the destination
    /// and copy the file there.
    CopyFile(usize),
}

/// The operations for the entry at position `index`: one for a directory or
/// a file, none for anything else.
pub open spec fn ops_for(index: int, kind: EntryKind) -> Seq<CopyOp> {
    match kind {
        EntryKind::Directory => seq![CopyOp::CreateDir(index as usize)],
        EntryKind::File => seq![CopyOp::CopyFile(index as usize)],
        EntryKind::Other => Seq::empty(),
    }
}

/// The operations that copy a walked tree: those of each entry, in the order
/// of the walk.
pub open spec fn copy_plan(kinds: Seq<EntryKind>) -> Seq<CopyOp>
    decreases kinds.len(),
{
    if kinds.len() == 0 {
        Seq::empty()
    } else {
        copy_plan(kinds.drop_last()) + ops_for(kinds.len() - 1, kinds.last())
    }
}

/// The entry that an operation is about.
pub open spec fn op_index(op: CopyOp) -> int {
    match op {
        CopyOp::CreateDir(i) => i as int,
        CopyOp::CopyFile(i) => i as int,
    }
}

/// The operations that copy a tree, given what each entry of the walk is.
pub fn copy_dir_recursive(kinds: &Vec<EntryKind>) -> (ops: Vec<CopyOp>)
    ensures
        ops@ == copy_plan(kinds@),
{
    let mut ops: Vec<CopyOp> = Vec::new();
    let mut i: usize = 0;
    while i < kinds.len()
        invariant
            i <= kinds.len(),
            ops@ == copy_plan(kinds@.take(i as int)),
        decreases kinds.len() - i,
    {
        proof {
            assert(kinds@.take(i + 1).drop_last() =~= kinds@.take(i as int));
            assert(kinds@.take(i + 1).last() == kinds@[i as int]);
        }
        match kinds[i] {
            EntryKind::Directory => {
                ops.push(CopyOp::CreateDir(i));
            },
            EntryKind::File => {
                ops.push(CopyOp::CopyFile(i));
            },
            EntryKind::Other => {},
        }
        assert(ops@ =~= copy_plan(kinds@.take(i + 1)));
        i = i + 1;
    }
    assert(kinds@.take(i as int) =~= kinds@);
    ops
}

/// A tree copy handles every directory and every file of the walk once, in
/// the order of the walk, and nothing else: the operations are about entries
/// in rising order, each is about a directory or a file and is the one for
/// its kind, and each directory and file has its operation.
pub proof fn law_copy_covers_the_walk(kinds: Seq<EntryKind>)
    requires
        kinds.len() <= usize::MAX,
    ensures
        forall|a: int, b: int|
            0 <= a < b < copy_plan(kinds).len() ==> op_index(#[trigger] copy_plan(kinds)[a])
                < op_index(#[trigger] copy_plan(kinds)[b]),
        forall|a: int|
            0 <= a < copy_plan(kinds).len() ==> 0 <= op_index(#[trigger] copy_plan(kinds)[a])
                < kinds.len() && ops_for(
                op_index(copy_plan(kinds)[a]),
                kinds[op_index(copy_plan(kinds)[a])],
            ) == seq![copy_plan(kinds)[a]],
        forall|i: int|
            0 <= i < kinds.len() && kinds[i] != EntryKind::Other ==> exists|a: int|
                0 <= a < copy_plan(kinds).len() && op_index(#[trigger] copy_plan(kinds)[a]) == i,
    decreases kinds.len(),
{
    if kinds.len() > 0 {
        let front = kinds.drop_last();
        let plan = copy_plan(kinds);
        let head = copy_plan(front);
        let last = kinds.len() - 1;
        law_copy_covers_the_walk(front);
        assert(plan == head + ops_for(last, kinds.last()));
        assert forall|a: int| 0 <= a < plan.len() implies 0 <= op_index(#[trigger] plan[a])
            < kinds.len() && ops_for(op_index(plan[a]), kinds[op_index(plan[a])]) == seq![
            plan[a],
        ] by {
            if a < head.len() {
                assert(plan[a] == head[a]);
                assert(front[op_index(head[a])] == kinds[op_index(head[a])]);
            } else {
                assert(plan[a] == ops_for(last, kinds.last())[a - head.len()]);
                assert(ops_for(last, kinds.last()) =~= seq![plan[a]]);
            }
        }
        assert forall|a: int, b: int| 0 <= a < b < plan.len() implies op_index(#[trigger] plan[a])
            < op_index(#[trigger] plan[b]) by {
            if b < head.len() {
                assert(plan[a] == head[a] && plan[b] == head[b]);
            } else {
                assert(plan[a] == head[a]);
                assert(plan[b] == ops_for(last, kinds.last())[b - head.len()]);
            }
        }
        assert forall|i: int| 0 <= i < kinds.len() && kinds[i] != EntryKind::Other implies exists|
            a: int,
        |
            0 <= a < plan.len() && op_index(#[trigger] plan[a]) == i by {
            if i < last {
                assert(front[i] == kinds[i]);
                let a = choose|a: int| 0 <= a < head.len() && op_index(#[trigger] head[a]) == i;
                assert(plan[a] == head[a]);
            } else {
                let a = head.len() as int;
                assert(plan[a] == ops_for(last, kinds.last())[0]);
                assert(op_index(plan[a]) == i);
            }
        }
    }
}

// ----------------------------------------------------------------------
// What a resync does to a directory
// ----------------------------------------------------------------------

/// A directory tree as a mathematical value: whether it exists, its files by
/// relative path with their bytes, and the relative paths of its directories.
pub struct TreeModel {
    pub exists: bool,
    pub files: Map<Seq<char>, Seq<u8>>,
    pub dirs: Set<Seq<char>>,
}

impl TreeModel {
    /// The tree that is not there.
    pub open spec fn absent() -> TreeModel {
        TreeModel { exists: false, files: Map::empty(), dirs: Set::empty() }
    }

    /// A tree that does not exist holds nothing.
    pub open spec fn wf(self) -> bool {
        !self.exists ==> self.files == Map::<Seq<char>, Seq<u8>>::empty() && self.dirs == Set::<
            Seq<char>,
        >::empty()
    }

    /// The preserved configuration of the tree, if it has one.
    pub open spec fn config(self) -> Option<Seq<u8>> {
        if self.files.contains_key(PRESERVED_CONFIG_FILE@) {
            Some(self.files[PRESERVED_CONFIG_FILE@])
        } else {
            None
        }
    }
}

/// The runtime after one step. `held` is the configuration that the host read
/// before the first step.
pub open spec fn after_step(
    step: SyncStep,
    template: TreeModel,
    held: Option<Seq<u8>>,
    runtime: TreeModel,
) -> TreeModel {
    match step {
        SyncStep::RemoveRuntime => TreeModel::absent(),
        SyncStep::CopyTemplate => TreeModel {
            exists: true,
            files: runtime.files.union_prefer_right(template.files),
            dirs: runtime.dirs.union(template.dirs),
        },
        SyncStep::RestoreConfig => match held {
            Some(bytes) => TreeModel {
                exists: true,
                files: runtime.files.insert(PRESERVED_CONFIG_FILE@, bytes),
                dirs: runtime.dirs,
            },
            None => runtime,
        },
    }
}

/// The runtime after `steps`, one after the other.
pub open spec fn after_steps(
    steps: Seq<SyncStep>,
    template: TreeModel,
    held: Option<Seq<u8>>,
    runtime: TreeModel,
) -> TreeModel
    decreases steps.len(),
{
    if steps.len() == 0 {
        runtime
    } else {
        after_steps(
            steps.drop_first(),
            template,
            held,
            after_step(steps.first(), template, held, runtime),
        )
    }
}

/// The runtime after the whole operation: untouched where it is not stale,
/// else taken through the steps of the resync with its own configuration
/// held.
pub open spec fn synchronized(
    template: TreeModel,
    template_meta: BackendMeta,
    runtime: TreeModel,
    runtime_meta: Option<Result<BackendMeta, MetadataError>>,
) -> TreeModel {
    if stale(template_meta, runtime_meta) {
        after_steps(
            resync_plan(runtime.exists, runtime.config() is Some),
            template,
            runtime.config(),
            runtime,
        )
    } else {
        runtime
    }
}

/// Equal hashes leave the runtime alone: where the runtime's descriptor
/// stands for the build of the template, nothing in the runtime directory is
/// touched.
pub proof fn law_equal_hash_skips(
    template: TreeModel,
    template_meta: BackendMeta,
    runtime: TreeModel,
    runtime_meta: BackendMeta,
)
    requires
        runtime_meta.same_build(&template_meta),
    ensures
        synchronized(template, template_meta, runtime, Some(Ok(runtime_meta))) == runtime,
{
}

proof fn lemma_resync(template: TreeModel, runtime: TreeModel)
    requires
        template.exists,
        runtime.wf(),
    ensures
        ({
            let after = after_steps(
                resync_plan(runtime.exists, runtime.config() is Some),
                template,
                runtime.config(),
                runtime,
            );
            &&& after.exists
            &&& after.dirs == template.dirs
            &&& after.files == match runtime.config() {
                Some(bytes) => template.files.insert(PRESERVED_CONFIG_FILE@, bytes),
                None => template.files,
            }
        }),
{
    let held = runtime.config();
    let plan = resync_plan(runtime.exists, held is Some);
    let cleared = TreeModel::absent();
    let copied = after_step(SyncStep::CopyTemplate, template, held, cleared);
    assert(copied.files =~= template.files);
    assert(copied.dirs =~= template.dirs);
    let restored = after_step(SyncStep::RestoreConfig, template, held, copied);
    reveal_with_fuel(after_steps, 4);
    if runtime.exists {
        assert(plan.first() == SyncStep::RemoveRuntime);
        if held is Some {
            let t1 = seq![SyncStep::CopyTemplate, SyncStep::RestoreConfig];
            let t2 = seq![SyncStep::RestoreConfig];
            assert(plan.drop_first() =~= t1);
            assert(t1.drop_first() =~= t2);
            assert(t2.drop_first() =~= Seq::<SyncStep>::empty());
            assert(after_steps(plan, template, held, runtime) == restored);
        } else {
            let t1 = seq![SyncStep::CopyTemplate];
            assert(plan.drop_first() =~= t1);
            assert(t1.drop_first() =~= Seq::<SyncStep>::empty());
            assert(after_steps(plan, template, held, runtime) == copied);
        }
    } else {
        assert(runtime.files =~= cleared.files);
        assert(runtime.dirs =~= cleared.dirs);
        assert(held is None);
        let t1 = seq![SyncStep::CopyTemplate];
        assert(plan =~= t1);
        assert(t1.drop_first() =~= Seq::<SyncStep>::empty());
        assert(after_step(SyncStep::CopyTemplate, template, held, runtime).files
            =~= template.files);
        assert(after_step(SyncStep::CopyTemplate, template, held, runtime).dirs =~= template.dirs);
        assert(after_steps(plan, template, held, runtime) == after_step(
            SyncStep::CopyTemplate,
            template,
            held,
            runtime,
        ));
    }
}

/// A resync keeps the configuration and replaces the rest: where the runtime
/// is stale and holds a configuration, the runtime afterwards has the
/// directories of the template, every other file is there exactly if the
/// template has it, with the template's bytes, and the configuration has the
/// bytes that it had before.
pub proof fn law_resync_preserves_config(
    template: TreeModel,
    template_meta: BackendMeta,
    runtime: TreeModel,
    runtime_meta: Option<Result<BackendMeta, MetadataError>>,
    config: Seq<u8>,
)
    requires
        template.exists,
        runtime.wf(),
        stale(template_meta, runtime_meta),
        runtime.config() == Some(config),
    ensures
        ({
            let after = synchronized(template, template_meta, runtime, runtime_meta);
            &&& after.exists
            &&& after.dirs == template.dirs
            &&& after.config() == Some(config)
            &&& forall|path: Seq<char>|
                path != PRESERVED_CONFIG_FILE@ ==> (#[trigger] after.files.contains_key(path)
                    <==> template.files.contains_key(path))
            &&& forall|path: Seq<char>|
                path != PRESERVED_CONFIG_FILE@ && template.files.contains_key(path)
                    ==> #[trigger] after.files[path] == template.files[path]
        }),
{
    lemma_resync(template, runtime);
}

/// A resync makes up no configuration: where the runtime is stale and holds
/// no configuration, the runtime afterwards is the template, file for file
/// and directory for directory. It has a configuration only if the template
/// ships one.
pub proof fn law_resync_without_config(
    template: TreeModel,
    template_meta: BackendMeta,
    runtime: TreeModel,
    runtime_meta: Option<Result<BackendMeta, MetadataError>>,
)
    requires
        template.exists,
        runtime.wf(),
        stale(template_meta, runtime_meta),
        runtime.config() is None,
    ensures
        synchronized(template, template_meta, runtime, runtime_meta) == template,
{
    lemma_resync(template, runtime);
    let after = synchronized(template, template_meta, runtime, runtime_meta);
    assert(after.files == template.files);
}

} // verus!
