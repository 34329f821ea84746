use vstd::prelude::*;
use vstd::string::StrSliceExecFns;

verus! {

/// Kind of one visited entry of an artifact's file tree.
#[derive(Clone, Copy, Debug, PartialEq, Eq, Structural)]
pub enum EntryKind {
    File,
    Dir,
}

/// One entry of an artifact tree: its path relative to the artifact root,
/// split into components (empty for the root itself), and its kind.
pub struct TreeEntry {
    pub rel_path: Vec<String>,
    pub kind: EntryKind,
}

/// What the materializer decides to do with one visited entry: copy the
/// file byte for byte, create the directory before its descendants are
/// visited, or skip the entry entirely.
#[derive(Clone, Copy, Debug, PartialEq, Eq, Structural)]
pub enum FsAction {
    CopyFile,
    CreateDir,
    Skip,
}

/// The reserved package-manager marker name.  The source's cache writes a
/// file of this name to record a completed download; it is meaningless
/// outside that cache and must never reach the destination.
pub open spec fn spec_marker() -> Seq<char> {
    ".cargo-ok"@
}

/// The marker name as a string.
pub fn marker_name() -> (r: &'static str)
    ensures
        r@ == spec_marker(),
{
    ".cargo-ok"
}

/// File name of an entry: its last path component, empty for the root.
pub open spec fn entry_name(e: TreeEntry) -> Seq<char> {
    if e.rel_path@.len() == 0 {
        Seq::<char>::empty()
    } else {
        e.rel_path@.last()@
    }
}

/// The copy rule for one entry: directories are created, files are
/// copied, except a file bearing the marker name, which is skipped.
pub open spec fn spec_plan(kind: EntryKind, name: Seq<char>) -> FsAction {
    match kind {
        EntryKind::Dir => FsAction::CreateDir,
        EntryKind::File => if name == spec_marker() {
            FsAction::Skip
        } else {
            FsAction::CopyFile
        },
    }
}

/// Character-for-character string comparison.
pub fn str_eq(a: &str, b: &str) -> (r: bool)
    ensures
        r == (a@ == b@),
{
    let na: usize = a.unicode_len();
    let nb: usize = b.unicode_len();
    if na != nb {
        return false;
    }
    let mut i: usize = 0;
    while i < na
        invariant
            i <= na,
            na == a@.len(),
            na == b@.len(),
            forall|k: int| 0 <= k < i ==> a@[k] == b@[k],
        decreases na - i,
    {
        if a.get_char(i) != b.get_char(i) {
            return false;
        }
        i += 1;
    }
    proof {
        assert(a@ =~= b@);
    }
    true
}

/// Decide what to do with one visited entry.
pub fn plan_entry(e: &TreeEntry) -> (a: FsAction)
    requires
        e.kind is File ==> e.rel_path@.len() > 0,
    ensures
        a == spec_plan(e.kind, entry_name(*e)),
{
    match e.kind {
        EntryKind::Dir => FsAction::CreateDir,
        EntryKind::File => {
            let last: &String = &e.rel_path[e.rel_path.len() - 1];
            if str_eq(last.as_str(), marker_name()) {
                FsAction::Skip
            } else {
                FsAction::CopyFile
            }
        },
    }
}

/// Decide what to do with every entry of a traversal, in traversal
/// order: the `k`-th action applies to the `k`-th entry's relative path,
/// re-rooted under the destination.
pub fn plan_tree(entries: &Vec<TreeEntry>) -> (plan: Vec<FsAction>)
    requires
        forall|k: int|
            0 <= k < entries@.len() ==> (#[trigger] entries@[k].kind) is File
                ==> entries@[k].rel_path@.len() > 0,
    ensures
        plan@.len() == entries@.len(),
        forall|k: int|
            0 <= k < entries@.len() ==> #[trigger] plan@[k] == spec_plan(
                entries@[k].kind,
                entry_name(entries@[k]),
            ),
{
    let mut plan: Vec<FsAction> = Vec::new();
    let mut i: usize = 0;
    while i < entries.len()
        invariant
            i <= entries@.len(),
            plan@.len() == i,
            forall|k: int|
                0 <= k < entries@.len() ==> (#[trigger] entries@[k].kind) is File
                    ==> entries@[k].rel_path@.len() > 0,
            forall|k: int|
                0 <= k < i ==> #[trigger] plan@[k] == spec_plan(
                    entries@[k].kind,
                    entry_name(entries@[k]),
                ),
        decreases entries@.len() - i,
    {
        let a = plan_entry(&entries[i]);
        plan.push(a);
        i += 1;
    }
    plan
}

/// Materialization faithfulness: following a plan, every directory and
/// every file of the artifact except the marker file is reproduced at
/// the destination under its own relative path, and the marker file
/// never reaches the destination.
pub proof fn lemma_plan_faithful(entries: Seq<TreeEntry>, plan: Seq<FsAction>)
    requires
        plan.len() == entries.len(),
        forall|k: int|
            0 <= k < entries.len() ==> #[trigger] plan[k] == spec_plan(
                entries[k].kind,
                entry_name(entries[k]),
            ),
    ensures
        forall|k: int|
            0 <= k < entries.len() && (#[trigger] entries[k].kind) is Dir ==> plan[k]
                == FsAction::CreateDir,
        forall|k: int|
            0 <= k < entries.len() && (#[trigger] entries[k].kind) is File && entry_name(entries[k])
                != spec_marker() ==> plan[k] == FsAction::CopyFile,
        forall|k: int|
            0 <= k < entries.len() ==> (#[trigger] plan[k] == FsAction::Skip <==> entries[k].kind
                is File && entry_name(entries[k]) == spec_marker()),
{
}

} // verus!
