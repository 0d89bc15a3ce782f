//! Staging: which files of the working tree go into a build package, and
//! how the staging directory is filled with them.
//!
//! The working tree is an input: the entries that a walk of it yields.  The
//! library selects the files to keep and lays out the operations that fill
//! the staging directory; its caller performs them.

use crate::exclusion::{excluded, ExclusionMatcher};
use crate::text::concat3;
use vstd::prelude::*;

verus! {

/// Name of the local scratch directory that holds the filtered copy of the
/// working tree while a build package is assembled.
pub const BUILD_LOCATION: &'static str = "_build";

/// One entry of a walk of the working tree.
#[derive(Debug, Clone, PartialEq, Eq)]
pub struct WalkEntry {
    /// The entry's path, as the walk gives it: relative to the working
    /// tree's root and starting with `./`.
    pub path: String,
    /// Whether the entry is a directory.
    pub is_dir: bool,
}

/// One operation on the staging directory.
#[derive(Debug, Clone, PartialEq, Eq)]
pub enum StageOp {
    /// Remove the staging directory with all it holds, if it exists, and
    /// create it anew.
    Reset,
    /// Copy the file `from` to `to`, creating the directories above `to` as
    /// needed.
    Copy { from: String, to: String },
}

/// The mathematical value of a `StageOp`.
pub enum StageOpView {
    Reset,
    Copy { from: Seq<char>, to: Seq<char> },
}

impl View for StageOp {
    type V = StageOpView;

    open spec fn view(&self) -> StageOpView {
        match *self {
            StageOp::Reset => StageOpView::Reset,
            StageOp::Copy { from, to } => StageOpView::Copy { from: from@, to: to@ },
        }
    }
}

impl DeepView for StageOp {
    type V = StageOpView;

    open spec fn deep_view(&self) -> StageOpView {
        self.view()
    }
}

/// The paths of the kept entries among the first `count`, in the order of
/// the walk: an entry is kept when it is no directory and its flag does not
/// exclude it.
pub open spec fn selected_first(
    entries: Seq<WalkEntry>,
    excluded_flags: Seq<bool>,
    count: nat,
) -> Seq<Seq<char>>
    recommends
        count <= entries.len(),
        count <= excluded_flags.len(),
    decreases count,
{
    if count == 0 {
        Seq::empty()
    } else {
        let rest = selected_first(entries, excluded_flags, (count - 1) as nat);
        if !entries[count - 1].is_dir && !excluded_flags[count - 1] {
            rest.push(entries[count - 1].path@)
        } else {
            rest
        }
    }
}

/// How many entries come with a flag.
pub open spec fn flagged_count(entries: Seq<WalkEntry>, excluded_flags: Seq<bool>) -> nat {
    if entries.len() <= excluded_flags.len() {
        entries.len()
    } else {
        excluded_flags.len()
    }
}

/// The paths of the entries that are kept, in the order of the walk.  An
/// entry without a flag is not kept.
pub open spec fn selected(entries: Seq<WalkEntry>, excluded_flags: Seq<bool>) -> Seq<Seq<char>> {
    selected_first(entries, excluded_flags, flagged_count(entries, excluded_flags))
}

/// For each entry, whether some rule of `rules` matches its path.
pub open spec fn exclusion_flags(rules: Seq<Seq<char>>, entries: Seq<WalkEntry>) -> Seq<bool> {
    entries.map_values(|entry: WalkEntry| excluded(rules, entry.path@))
}

/// The staging manifest of a working tree under the rules `rules`: the
/// paths of its files that no rule matches.
pub open spec fn manifest_of(rules: Seq<Seq<char>>, entries: Seq<WalkEntry>) -> Seq<Seq<char>> {
    selected(entries, exclusion_flags(rules, entries))
}

/// Where the file `path` of the working tree lies in the staging directory.
pub open spec fn staged_path_of(path: Seq<char>) -> Seq<char> {
    BUILD_LOCATION@ + "/"@ + path
}

/// The operations that fill the staging directory with the files of
/// `manifest`: a reset, then one copy for each file.
pub open spec fn plan_of(manifest: Seq<Seq<char>>) -> Seq<StageOpView> {
    seq![StageOpView::Reset] + manifest.map_values(
        |path: Seq<char>| StageOpView::Copy { from: path, to: staged_path_of(path) },
    )
}

/// The files in the staging directory after `op`, when it held `staged`
/// before.
pub open spec fn apply_op(staged: Set<Seq<char>>, op: StageOpView) -> Set<Seq<char>> {
    match op {
        StageOpView::Reset => Set::empty(),
        StageOpView::Copy { from, to } => staged.insert(to),
    }
}

/// The files in the staging directory after the operations `ops`, in order.
pub open spec fn apply_ops(staged: Set<Seq<char>>, ops: Seq<StageOpView>) -> Set<Seq<char>>
    decreases ops.len(),
{
    if ops.len() == 0 {
        staged
    } else {
        apply_op(apply_ops(staged, ops.drop_last()), ops.last())
    }
}

/// The staged paths of the files of `manifest`, as a set.
pub open spec fn staged_files(manifest: Seq<Seq<char>>) -> Set<Seq<char>> {
    Set::new(
        |staged: Seq<char>|
            exists|i: int|
                0 <= i < manifest.len() && staged == staged_path_of(#[trigger] manifest[i]),
    )
}

/// A path is among the first `count` selected exactly when it is the path
/// of one of the first `count` entries that is no directory and is not
/// excluded.
pub proof fn lemma_selected_first_contains(
    entries: Seq<WalkEntry>,
    flags: Seq<bool>,
    count: nat,
    path: Seq<char>,
)
    requires
        count <= entries.len(),
        count <= flags.len(),
    ensures
        selected_first(entries, flags, count).len() <= count,
        selected_first(entries, flags, count).contains(path) <==> exists|i: int|
            0 <= i < count && !(#[trigger] entries[i]).is_dir && !flags[i] && entries[i].path@
                == path,
    decreases count,
{
    if count > 0 {
        let before = (count - 1) as nat;
        let rest = selected_first(entries, flags, before);
        let all = selected_first(entries, flags, count);
        lemma_selected_first_contains(entries, flags, before, path);
        let keep_last = !entries[count - 1].is_dir && !flags[count - 1];
        if all.contains(path) {
            let k = choose|k: int| 0 <= k < all.len() && all[k] == path;
            if k < rest.len() {
                assert(rest[k] == path);
                assert(rest.contains(path));
                let i = choose|i: int|
                    0 <= i < before && !(#[trigger] entries[i]).is_dir && !flags[i]
                        && entries[i].path@ == path;
                assert(!entries[i].is_dir);
            } else {
                assert(keep_last);
                assert(!entries[count - 1].is_dir && entries[count - 1].path@ == path);
            }
        }
        if exists|i: int|
            0 <= i < count && !(#[trigger] entries[i]).is_dir && !flags[i] && entries[i].path@
                == path {
            let i = choose|i: int|
                0 <= i < count && !(#[trigger] entries[i]).is_dir && !flags[i]
                    && entries[i].path@ == path;
            if i < before {
                assert(rest.contains(path));
                let k = choose|k: int| 0 <= k < rest.len() && rest[k] == path;
                assert(all[k] == path);
            } else {
                assert(all[rest.len() as int] == path);
            }
        }
    }
}

/// A path is selected exactly when it is the path of a flagged entry that
/// is no directory and is not excluded.
pub proof fn lemma_selected_contains(entries: Seq<WalkEntry>, flags: Seq<bool>, path: Seq<char>)
    ensures
        selected(entries, flags).len() <= entries.len(),
        selected(entries, flags).contains(path) <==> exists|i: int|
            0 <= i < flagged_count(entries, flags) && !(#[trigger] entries[i]).is_dir
                && !flags[i] && entries[i].path@ == path,
{
    lemma_selected_first_contains(entries, flags, flagged_count(entries, flags), path);
}

/// Every file of a manifest is a file of the walked tree that no rule
/// matches, and every such file is in the manifest.  So a file that has
/// left the tree is in no later manifest.
pub proof fn lemma_manifest_contains(
    rules: Seq<Seq<char>>,
    entries: Seq<WalkEntry>,
    path: Seq<char>,
)
    ensures
        manifest_of(rules, entries).contains(path) <==> (!excluded(rules, path) && exists|i: int|
            0 <= i < entries.len() && !(#[trigger] entries[i]).is_dir && entries[i].path@
                == path),
{
    let flags = exclusion_flags(rules, entries);
    lemma_selected_contains(entries, flags, path);
    if manifest_of(rules, entries).contains(path) {
        let i = choose|i: int|
            0 <= i < flagged_count(entries, flags) && !(#[trigger] entries[i]).is_dir && !flags[i]
                && entries[i].path@ == path;
        assert(flags[i] == excluded(rules, entries[i].path@));
    }
    if !excluded(rules, path) && exists|i: int|
        0 <= i < entries.len() && !(#[trigger] entries[i]).is_dir && entries[i].path@ == path {
        let i = choose|i: int|
            0 <= i < entries.len() && !(#[trigger] entries[i]).is_dir && entries[i].path@ == path;
        assert(flags[i] == excluded(rules, entries[i].path@));
    }
}

/// Two files have the same staged path only if they are the same file.
pub proof fn lemma_staged_path_injective(a: Seq<char>, b: Seq<char>)
    requires
        staged_path_of(a) == staged_path_of(b),
    ensures
        a == b,
{
    let prefix = BUILD_LOCATION@ + "/"@;
    assert(staged_path_of(a).subrange(prefix.len() as int, staged_path_of(a).len() as int) =~= a);
    assert(staged_path_of(b).subrange(prefix.len() as int, staged_path_of(b).len() as int) =~= b);
}

/// Whatever the staging directory held before, after the plan for a
/// manifest it holds the staged files of that manifest and nothing else.
pub proof fn lemma_plan_replaces_staging(prior: Set<Seq<char>>, manifest: Seq<Seq<char>>)
    ensures
        apply_ops(prior, plan_of(manifest)) == staged_files(manifest),
    decreases manifest.len(),
{
    let ops = plan_of(manifest);
    if manifest.len() == 0 {
        assert(ops.drop_last() =~= Seq::<StageOpView>::empty());
        assert(apply_ops(prior, ops) =~= staged_files(manifest));
    } else {
        let head = manifest.drop_last();
        assert(ops.drop_last() =~= plan_of(head));
        lemma_plan_replaces_staging(prior, head);
        let to = staged_path_of(manifest.last());
        assert(ops.last() == StageOpView::Copy { from: manifest.last(), to });
        assert forall|p: Seq<char>|
            staged_files(manifest).contains(p) <==> staged_files(head).insert(to).contains(
                p,
            ) by {
            if staged_files(manifest).contains(p) {
                let i = choose|i: int|
                    0 <= i < manifest.len() && p == staged_path_of(#[trigger] manifest[i]);
                if i < head.len() {
                    assert(head[i] == manifest[i]);
                }
            }
            if staged_files(head).contains(p) {
                let i = choose|i: int|
                    0 <= i < head.len() && p == staged_path_of(#[trigger] head[i]);
                assert(head[i] == manifest[i]);
            }
            if p == to {
                assert(p == staged_path_of(manifest[manifest.len() - 1]));
            }
        }
        assert(apply_ops(prior, ops) =~= staged_files(manifest));
    }
}

/// Staging again replaces the earlier staging: after a second run the
/// staging directory holds the staged files of the second manifest only.
/// With the same tree and rules both runs leave the same files; a file that
/// is in the first manifest and not in the second is gone after the second
/// run.
pub proof fn lemma_restaging(prior: Set<Seq<char>>, first: Seq<Seq<char>>, second: Seq<Seq<char>>)
    ensures
        apply_ops(apply_ops(prior, plan_of(first)), plan_of(second)) == staged_files(second),
        first == second ==> apply_ops(apply_ops(prior, plan_of(first)), plan_of(second))
            == apply_ops(prior, plan_of(first)),
        forall|path: Seq<char>|
            !second.contains(path) ==> !apply_ops(
                apply_ops(prior, plan_of(first)),
                plan_of(second),
            ).contains(#[trigger] staged_path_of(path)),
{
    lemma_plan_replaces_staging(prior, first);
    lemma_plan_replaces_staging(apply_ops(prior, plan_of(first)), second);
    assert forall|path: Seq<char>| !second.contains(path) implies !staged_files(second).contains(
        #[trigger] staged_path_of(path),
    ) by {
        if staged_files(second).contains(staged_path_of(path)) {
            let i = choose|i: int|
                0 <= i < second.len() && staged_path_of(path) == staged_path_of(
                    #[trigger] second[i],
                );
            lemma_staged_path_injective(path, second[i]);
        }
    }
}

/// The paths of the entries to keep, given for each entry whether it is
/// excluded.  An entry without a flag is not kept.
pub fn select_files(entries: &Vec<WalkEntry>, excluded_flags: &Vec<bool>) -> (r: Vec<String>)
    ensures
        r.deep_view() == selected(entries@, excluded_flags@),
{
    let count: usize = if entries.len() <= excluded_flags.len() {
        entries.len()
    } else {
        excluded_flags.len()
    };
    let mut out: Vec<String> = Vec::new();
    let mut i: usize = 0;
    assert(out.deep_view() =~= selected_first(entries@, excluded_flags@, 0));
    while i < count
        invariant
            i <= count,
            count == flagged_count(entries@, excluded_flags@),
            out.deep_view() == selected_first(entries@, excluded_flags@, i as nat),
        decreases count - i,
    {
        let ghost before = out.deep_view();
        if !entries[i].is_dir && !excluded_flags[i] {
            out.push(entries[i].path.clone());
            assert(out.deep_view() =~= before.push(entries@[i as int].path@));
        }
        i += 1;
    }
    out
}

/// The staging manifest of the walked tree `entries`: the paths of its
/// files that `matcher` does not exclude, in the order of the walk.
pub fn stage(matcher: &ExclusionMatcher, entries: &Vec<WalkEntry>) -> (r: Vec<String>)
    ensures
        r.deep_view() == manifest_of(matcher@, entries@),
{
    let mut flags: Vec<bool> = Vec::new();
    let mut i: usize = 0;
    while i < entries.len()
        invariant
            i <= entries@.len(),
            flags@.len() == i,
            forall|k: int| 0 <= k < i ==> flags@[k] == excluded(matcher@, entries@[k].path@),
        decreases entries@.len() - i,
    {
        flags.push(matcher.matches(entries[i].path.as_str()));
        i += 1;
    }
    assert(flags@ =~= exclusion_flags(matcher@, entries@));
    select_files(entries, &flags)
}

/// Where the file `path` of the working tree lies in the staging directory.
pub fn staged_path(path: &str) -> (r: String)
    ensures
        r@ == staged_path_of(path@),
{
    concat3(BUILD_LOCATION, "/", path)
}

/// The operations that fill the staging directory with the files of
/// `manifest`.
pub fn stage_plan(manifest: &Vec<String>) -> (r: Vec<StageOp>)
    ensures
        r.deep_view() == plan_of(manifest.deep_view()),
{
    let mut ops: Vec<StageOp> = Vec::new();
    ops.push(StageOp::Reset);
    let mut i: usize = 0;
    while i < manifest.len()
        invariant
            i <= manifest@.len(),
            ops@.len() == i + 1,
            ops@[0]@ == StageOpView::Reset,
            forall|k: int|
                0 <= k < i ==> (#[trigger] ops@[k + 1])@ == (StageOpView::Copy {
                    from: manifest@[k]@,
                    to: staged_path_of(manifest@[k]@),
                }),
        decreases manifest@.len() - i,
    {
        let from = manifest[i].clone();
        let to = staged_path(manifest[i].as_str());
        ops.push(StageOp::Copy { from, to });
        i += 1;
    }
    proof {
        let want = plan_of(manifest.deep_view());
        assert(ops.deep_view().len() == want.len());
        assert forall|k: int| 0 <= k < want.len() implies ops.deep_view()[k] == want[k] by {
            if k > 0 {
                assert(ops@[(k - 1) + 1]@ == want[k]);
            }
        }
        assert(ops.deep_view() =~= want);
    }
    ops
}

} // verus!
