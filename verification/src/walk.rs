use vstd::prelude::*;

use crate::filter::EntryFilter;
use crate::filter::set_matches;

verus! {

// The traversal layer: a snapshot of a directory tree, the plan of which
// files a scan visits under an entry filter, and the pruning and filtering
// laws that plan obeys. Enumerating the real file system is plain I/O and is
// left to the caller; entries that error during enumeration are simply
// absent from the snapshot, which is the walk's best-effort policy of
// skipping them.

/// One entry of a directory-tree snapshot. Paths are stored in full, as the
/// enumeration yielded them.
pub enum FsEntry {
    File { path: String },
    Dir { path: String, entries: Vec<FsEntry> },
}

/// The views of a list of path strings.
pub open spec fn views_of(paths: Seq<String>) -> Seq<Seq<char>> {
    paths.map_values(|p: String| p@)
}

/// The paths of the files that a walk of `entry` visits under `filter`, in
/// visit order: a kept file is visited; an excluded directory is pruned
/// whole, so nothing under it is visited; a kept directory contributes its
/// entries' visits in declared order.
pub open spec fn visited_files(entry: FsEntry, filter: EntryFilter) -> Seq<Seq<char>>
    decreases entry,
{
    match entry {
        FsEntry::File { path } => if filter.keep_file_spec(path@) {
            seq![path@]
        } else {
            Seq::empty()
        },
        FsEntry::Dir { path, entries } => if filter.keep_dir_spec(path@) {
            visited_prefix(entries@, entries@.len() as int, filter)
        } else {
            Seq::empty()
        },
    }
}

/// The concatenated visits of the first `n` entries of a list.
pub open spec fn visited_prefix(entries: Seq<FsEntry>, n: int, filter: EntryFilter) -> Seq<
    Seq<char>,
>
    decreases entries, n,
{
    if n <= 0 || n > entries.len() {
        Seq::empty()
    } else {
        visited_prefix(entries, n - 1, filter) + visited_files(entries[n - 1], filter)
    }
}

/// Compute the visit plan: the files a walk of `entry` visits under
/// `filter`, in visit order.
pub fn plan_walk(entry: &FsEntry, filter: &EntryFilter) -> (r: Vec<String>)
    ensures
        views_of(r@) == visited_files(*entry, *filter),
{
    let mut out: Vec<String> = Vec::new();
    walk_into(entry, filter, &mut out);
    proof {
        assert(views_of(out@) =~= Seq::<Seq<char>>::empty() + visited_files(*entry, *filter));
    }
    out
}

/// Append the visits of one entry to the plan under construction.
fn walk_into(entry: &FsEntry, filter: &EntryFilter, out: &mut Vec<String>)
    ensures
        views_of(final(out)@) == views_of(old(out)@) + visited_files(*entry, *filter),
    decreases *entry,
{
    match entry {
        FsEntry::File { path } => {
            if filter.keep_file(path) {
                out.push(path.clone());
                proof {
                    assert(views_of(out@) =~= views_of(old(out)@) + visited_files(
                        *entry,
                        *filter,
                    ));
                }
            } else {
                proof {
                    assert(views_of(out@) =~= views_of(old(out)@) + visited_files(
                        *entry,
                        *filter,
                    ));
                }
            }
        },
        FsEntry::Dir { path, entries } => {
            if filter.keep_dir(path) {
                let mut i: usize = 0;
                while i < entries.len()
                    invariant
                        i <= entries@.len(),
                        views_of(out@) == views_of(old(out)@) + visited_prefix(
                            entries@,
                            i as int,
                            *filter,
                        ),
                        *entry == (FsEntry::Dir { path: *path, entries: *entries }),
                        filter.keep_dir_spec(path@),
                    decreases entries@.len() - i,
                {
                    proof {
                        assert(decreases_to!(*entry => entry->Dir_entries));
                        assert(decreases_to!(entry->Dir_entries => entry->Dir_entries@));
                        assert(decreases_to!(entry->Dir_entries@ => entry->Dir_entries@[i as int]));
                        assert(decreases_to!(*entry => entries@[i as int]));
                    }
                    walk_into(&entries[i], filter, out);
                    i = i + 1;
                }
            } else {
                proof {
                    assert(views_of(out@) =~= views_of(old(out)@) + visited_files(
                        *entry,
                        *filter,
                    ));
                }
            }
        },
    }
}

/// Pruning: a directory matched by an exclude pattern contributes no visited
/// file at all, whatever lies under it and whatever the include patterns
/// would say of those files.
pub proof fn lemma_excluded_dir_prunes(path: String, entries: Vec<FsEntry>, filter: EntryFilter)
    requires
        set_matches(filter.exclude_globs(), path@),
    ensures
        visited_files(FsEntry::Dir { path, entries }, filter) == Seq::<Seq<char>>::empty(),
{
}

/// Soundness of the plan: every visited file passes the file predicate, that
/// is, no exclude pattern matches it and some include pattern does.
pub proof fn lemma_visited_files_kept(entry: FsEntry, filter: EntryFilter)
    ensures
        forall|k: int|
            0 <= k < visited_files(entry, filter).len() ==> filter.keep_file_spec(
                #[trigger] visited_files(entry, filter)[k],
            ),
    decreases entry,
{
    match entry {
        FsEntry::File { path } => {
            if filter.keep_file_spec(path@) {
                assert(visited_files(entry, filter) =~= seq![path@]);
            } else {
                assert(visited_files(entry, filter) =~= Seq::<Seq<char>>::empty());
            }
        },
        FsEntry::Dir { path, entries } => {
            if filter.keep_dir_spec(path@) {
                lemma_visited_prefix_kept(entries@, entries@.len() as int, filter);
                assert(visited_files(entry, filter) == visited_prefix(
                    entries@,
                    entries@.len() as int,
                    filter,
                ));
            } else {
                assert(visited_files(entry, filter) =~= Seq::<Seq<char>>::empty());
            }
        },
    }
}

proof fn lemma_visited_prefix_kept(entries: Seq<FsEntry>, n: int, filter: EntryFilter)
    ensures
        forall|k: int|
            0 <= k < visited_prefix(entries, n, filter).len() ==> filter.keep_file_spec(
                #[trigger] visited_prefix(entries, n, filter)[k],
            ),
    decreases entries, n,
{
    if n <= 0 || n > entries.len() {
    } else {
        lemma_visited_prefix_kept(entries, n - 1, filter);
        lemma_visited_files_kept(entries[n - 1], filter);
        let left = visited_prefix(entries, n - 1, filter);
        let right = visited_files(entries[n - 1], filter);
        assert forall|k: int|
            0 <= k < visited_prefix(entries, n, filter).len() implies filter.keep_file_spec(
            #[trigger] visited_prefix(entries, n, filter)[k],
        ) by {
            if k < left.len() {
                assert(visited_prefix(entries, n, filter)[k] == left[k]);
            } else {
                assert(visited_prefix(entries, n, filter)[k] == right[k - left.len()]);
            }
        }
    }
}

/// Boundary case of filtering: with an empty include pattern set no file is
/// visited at all, whatever the tree holds.
pub proof fn lemma_empty_include_visits_nothing(entry: FsEntry, filter: EntryFilter)
    requires
        filter.include_globs() == Seq::<(Seq<char>, bool)>::empty(),
    ensures
        visited_files(entry, filter) == Seq::<Seq<char>>::empty(),
{
    lemma_visited_files_kept(entry, filter);
    if visited_files(entry, filter).len() > 0 {
        assert(filter.keep_file_spec(visited_files(entry, filter)[0]));
        assert(false);
    }
    assert(visited_files(entry, filter) =~= Seq::<Seq<char>>::empty());
}

/// Completeness of filtering, one level down: a file that passes the file
/// predicate and stands directly in a kept directory is visited.
pub proof fn lemma_kept_child_file_visited(
    dir_path: String,
    entries: Vec<FsEntry>,
    i: int,
    file_path: String,
    filter: EntryFilter,
)
    requires
        0 <= i < entries@.len(),
        entries@[i] == (FsEntry::File { path: file_path }),
        filter.keep_dir_spec(dir_path@),
        filter.keep_file_spec(file_path@),
    ensures
        visited_files(FsEntry::Dir { path: dir_path, entries }, filter).contains(file_path@),
{
    lemma_prefix_contains_kept_file(entries@, entries@.len() as int, i, file_path, filter);
    assert(visited_files(FsEntry::Dir { path: dir_path, entries }, filter) == visited_prefix(
        entries@,
        entries@.len() as int,
        filter,
    ));
}

proof fn lemma_prefix_contains_kept_file(
    entries: Seq<FsEntry>,
    n: int,
    i: int,
    file_path: String,
    filter: EntryFilter,
)
    requires
        0 <= i < n <= entries.len(),
        entries[i] == (FsEntry::File { path: file_path }),
        filter.keep_file_spec(file_path@),
    ensures
        visited_prefix(entries, n, filter).contains(file_path@),
    decreases entries, n,
{
    if n - 1 == i {
        assert(visited_files(entries[i], filter) == seq![file_path@]);
        assert(visited_prefix(entries, n, filter)[visited_prefix(entries, n - 1, filter).len() as int]
            == file_path@);
    } else {
        lemma_prefix_contains_kept_file(entries, n - 1, i, file_path, filter);
        let j = choose|j: int|
            0 <= j < visited_prefix(entries, n - 1, filter).len() && (#[trigger] visited_prefix(
                entries,
                n - 1,
                filter,
            )[j]) == file_path@;
        assert(visited_prefix(entries, n, filter)[j] == file_path@);
    }
}

/// The visit plan is a function of the tree snapshot and the filter alone:
/// two plans drawn from the same snapshot with the same filter are equal.
pub proof fn lemma_plan_deterministic(
    first: Seq<Seq<char>>,
    second: Seq<Seq<char>>,
    entry: FsEntry,
    filter: EntryFilter,
)
    requires
        first == visited_files(entry, filter),
        second == visited_files(entry, filter),
    ensures
        first == second,
{
}

} // verus!
