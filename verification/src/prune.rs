//! Pruning the history: keeping the most recent entries and dropping the
//! rest.
//!
//! The entries of all files are ranked from the newest to the oldest;
//! entries of the same time rank in the order in which they are listed, file
//! by file. The first `keep_count` of them are kept. Every file is then
//! written again with the entries it keeps, from the oldest to the newest,
//! entries of the same time in the order they had in the file. A file that
//! keeps nothing is removed.

use vstd::prelude::*;
use vstd::string::*;
use crate::history::{earlier, entry_views, Timestamp, TranscriptionEntry, TranscriptionEntryView};

verus! {

/// One file of the history: its name and the entries read from it, in the
/// order of the file.
#[derive(Clone, Debug, PartialEq, Eq)]
pub struct HistoryFile {
    pub name: String,
    pub entries: Vec<TranscriptionEntry>,
}

/// What is written to one file of the history. Without entries the file is
/// removed.
#[derive(Clone, Debug, PartialEq, Eq)]
pub struct FileRewrite {
    pub name: String,
    pub entries: Vec<TranscriptionEntry>,
}

/// The outcome of pruning: how many entries are dropped, and what is
/// written to each file. Where nothing is dropped, nothing is written.
#[derive(Clone, Debug, PartialEq, Eq)]
pub struct PrunePlan {
    pub pruned: usize,
    pub rewrites: Vec<FileRewrite>,
}

/// The entries of each file in `files`, in order.
pub open spec fn history_views(files: Seq<HistoryFile>) -> Seq<Seq<TranscriptionEntryView>> {
    files.map_values(|file: HistoryFile| entry_views(file.entries@))
}

/// The number of entries in the first `upto_file` files.
pub open spec fn total_entries(files: Seq<Seq<TranscriptionEntryView>>, upto_file: int) -> nat
    decreases upto_file,
{
    if upto_file <= 0 {
        0
    } else {
        total_entries(files, upto_file - 1) + files[upto_file - 1].len()
    }
}

/// Whether the entry at position `p1` of file `f1` ranks before the entry at
/// position `p2` of file `f2`: it is newer, or as old and listed first.
pub open spec fn ranks_before(
    files: Seq<Seq<TranscriptionEntryView>>,
    f1: int,
    p1: int,
    f2: int,
    p2: int,
) -> bool {
    let a = files[f1][p1].timestamp;
    let b = files[f2][p2].timestamp;
    earlier(b, a) || (a == b && (f1 < f2 || (f1 == f2 && p1 < p2)))
}

/// The number of entries among the first `upto` of file `f1` that rank
/// before the entry at position `p2` of file `f2`.
pub open spec fn ranking_before_in_file(
    files: Seq<Seq<TranscriptionEntryView>>,
    f1: int,
    upto: int,
    f2: int,
    p2: int,
) -> nat
    decreases upto,
{
    if upto <= 0 {
        0
    } else {
        ranking_before_in_file(files, f1, upto - 1, f2, p2) + if ranks_before(
            files,
            f1,
            upto - 1,
            f2,
            p2,
        ) {
            1nat
        } else {
            0nat
        }
    }
}

/// The number of entries in the first `upto_file` files that rank before the
/// entry at position `p2` of file `f2`.
pub open spec fn ranking_before(
    files: Seq<Seq<TranscriptionEntryView>>,
    upto_file: int,
    f2: int,
    p2: int,
) -> nat
    decreases upto_file,
{
    if upto_file <= 0 {
        0
    } else {
        ranking_before(files, upto_file - 1, f2, p2) + ranking_before_in_file(
            files,
            upto_file - 1,
            files[upto_file - 1].len() as int,
            f2,
            p2,
        )
    }
}

/// Whether the entry at position `p` of file `f` is kept when `keep`
/// entries are: fewer than `keep` entries rank before it.
pub open spec fn is_kept(files: Seq<Seq<TranscriptionEntryView>>, keep: int, f: int, p: int)
    -> bool {
    ranking_before(files, files.len() as int, f, p) < keep
}

/// The number of kept entries among the first `upto` of file `f`.
pub open spec fn kept_in_file(
    files: Seq<Seq<TranscriptionEntryView>>,
    keep: int,
    f: int,
    upto: int,
) -> nat
    decreases upto,
{
    if upto <= 0 {
        0
    } else {
        kept_in_file(files, keep, f, upto - 1) + if is_kept(files, keep, f, upto - 1) {
            1nat
        } else {
            0nat
        }
    }
}

/// Whether, in the file `f`, the entry at `q` is written before the entry at
/// `p`: it is older, or as old and earlier in the file.
pub open spec fn written_before(files: Seq<Seq<TranscriptionEntryView>>, f: int, q: int, p: int)
    -> bool {
    let a = files[f][q].timestamp;
    let b = files[f][p].timestamp;
    earlier(a, b) || (a == b && q < p)
}

/// The number of kept entries among the first `upto` of file `f` that are
/// written before the entry at `p`.
pub open spec fn kept_written_before(
    files: Seq<Seq<TranscriptionEntryView>>,
    keep: int,
    f: int,
    upto: int,
    p: int,
) -> nat
    decreases upto,
{
    if upto <= 0 {
        0
    } else {
        kept_written_before(files, keep, f, upto - 1, p) + if is_kept(files, keep, f, upto - 1)
            && written_before(files, f, upto - 1, p) {
            1nat
        } else {
            0nat
        }
    }
}

/// The place of the entry at `p` of file `f` in what is written to the file:
/// the number of kept entries of the file that are written before it.
pub open spec fn place(files: Seq<Seq<TranscriptionEntryView>>, keep: int, f: int, p: int) -> nat {
    kept_written_before(files, keep, f, files[f].len() as int, p)
}

/// Whether `written` is what a pruning that keeps `keep` entries writes to
/// the file `f`: its kept entries, each at its place.
pub open spec fn is_pruned_file(
    files: Seq<Seq<TranscriptionEntryView>>,
    keep: int,
    f: int,
    written: Seq<TranscriptionEntryView>,
) -> bool {
    &&& written.len() == kept_in_file(files, keep, f, files[f].len() as int)
    &&& forall|p: int|
        0 <= p < files[f].len() && #[trigger] is_kept(files, keep, f, p) ==> place(
            files,
            keep,
            f,
            p,
        ) < written.len() && written[place(files, keep, f, p) as int] == files[f][p]
}

/// Whether `rewrites` is what a pruning of `files` that keeps `keep`
/// entries writes: one rewrite per file, in order and under the file's name.
pub open spec fn is_pruned_history(files: Seq<HistoryFile>, keep: int, rewrites: Seq<FileRewrite>)
    -> bool {
    &&& rewrites.len() == files.len()
    &&& forall|f: int|
        0 <= f < files.len() ==> (#[trigger] rewrites[f]).name@ == files[f].name@
            && is_pruned_file(history_views(files), keep, f, entry_views(rewrites[f].entries@))
}

/// Entry counts only grow from file to file.
proof fn lemma_total_entries_grows(files: Seq<Seq<TranscriptionEntryView>>, m: int, n: int)
    requires
        0 <= m <= n,
    ensures
        total_entries(files, m) <= total_entries(files, n),
    decreases n,
{
    if m < n {
        lemma_total_entries_grows(files, m, n - 1);
    }
}

proof fn lemma_ranking_before_in_file_bound(
    files: Seq<Seq<TranscriptionEntryView>>,
    f1: int,
    upto: int,
    f2: int,
    p2: int,
)
    requires
        0 <= upto,
    ensures
        ranking_before_in_file(files, f1, upto, f2, p2) <= upto,
    decreases upto,
{
    if upto > 0 {
        lemma_ranking_before_in_file_bound(files, f1, upto - 1, f2, p2);
    }
}

proof fn lemma_ranking_before_bound(
    files: Seq<Seq<TranscriptionEntryView>>,
    upto_file: int,
    f2: int,
    p2: int,
)
    requires
        0 <= upto_file,
    ensures
        ranking_before(files, upto_file, f2, p2) <= total_entries(files, upto_file),
    decreases upto_file,
{
    if upto_file > 0 {
        lemma_ranking_before_bound(files, upto_file - 1, f2, p2);
        lemma_ranking_before_in_file_bound(
            files,
            upto_file - 1,
            files[upto_file - 1].len() as int,
            f2,
            p2,
        );
    }
}

proof fn lemma_kept_in_file_bound(
    files: Seq<Seq<TranscriptionEntryView>>,
    keep: int,
    f: int,
    upto: int,
)
    requires
        0 <= upto,
    ensures
        kept_in_file(files, keep, f, upto) <= upto,
    decreases upto,
{
    if upto > 0 {
        lemma_kept_in_file_bound(files, keep, f, upto - 1);
    }
}

/// A kept entry has a place among the kept entries of its file.
proof fn lemma_place_in_range(
    files: Seq<Seq<TranscriptionEntryView>>,
    keep: int,
    f: int,
    upto: int,
    p: int,
)
    requires
        0 <= upto,
        0 <= p,
        is_kept(files, keep, f, p),
    ensures
        kept_written_before(files, keep, f, upto, p) + (if p < upto {
            1int
        } else {
            0int
        }) <= kept_in_file(files, keep, f, upto),
    decreases upto,
{
    if upto > 0 {
        lemma_place_in_range(files, keep, f, upto - 1, p);
    }
}

/// Of two kept entries of a file, the one written first has the lower
/// place.
proof fn lemma_places_follow_order(
    files: Seq<Seq<TranscriptionEntryView>>,
    keep: int,
    f: int,
    upto: int,
    q: int,
    p: int,
)
    requires
        0 <= upto,
        0 <= q,
        is_kept(files, keep, f, q),
        written_before(files, f, q, p),
    ensures
        kept_written_before(files, keep, f, upto, q) + (if q < upto {
            1int
        } else {
            0int
        }) <= kept_written_before(files, keep, f, upto, p),
    decreases upto,
{
    if upto > 0 {
        lemma_places_follow_order(files, keep, f, upto - 1, q, p);
    }
}

/// Two kept entries of a file never share a place.
proof fn lemma_places_differ(
    files: Seq<Seq<TranscriptionEntryView>>,
    keep: int,
    f: int,
    q: int,
    p: int,
)
    requires
        0 <= q < files[f].len(),
        0 <= p < files[f].len(),
        q != p,
        is_kept(files, keep, f, q),
        is_kept(files, keep, f, p),
    ensures
        place(files, keep, f, q) != place(files, keep, f, p),
{
    let n = files[f].len() as int;
    if written_before(files, f, q, p) {
        lemma_places_follow_order(files, keep, f, n, q, p);
    } else {
        assert(written_before(files, f, p, q));
        lemma_places_follow_order(files, keep, f, n, p, q);
    }
}

fn is_ranked_before(a: &Timestamp, f1: usize, p1: usize, b: &Timestamp, f2: usize, p2: usize) -> (before:
    bool)
    ensures
        before == (earlier(*b, *a) || (*a == *b && (f1 < f2 || (f1 == f2 && p1 < p2)))),
{
    b.is_before(a) || (a.secs == b.secs && a.nanos == b.nanos && (f1 < f2 || (f1 == f2 && p1
        < p2)))
}

fn count_entries_of(files: &Vec<HistoryFile>) -> (total: usize)
    requires
        total_entries(history_views(files@), files@.len() as int) <= usize::MAX,
    ensures
        total == total_entries(history_views(files@), files@.len() as int),
{
    let mut total: usize = 0;
    let mut f: usize = 0;
    while f < files.len()
        invariant
            f <= files.len(),
            total == total_entries(history_views(files@), f as int),
            total_entries(history_views(files@), files@.len() as int) <= usize::MAX,
        decreases files.len() - f,
    {
        proof {
            lemma_total_entries_grows(history_views(files@), f + 1, files@.len() as int);
        }
        total = total + files[f].entries.len();
        f = f + 1;
    }
    total
}

/// Counts the entries that rank before the entry at `p2` of file `f2`.
fn rank_of(files: &Vec<HistoryFile>, f2: usize, p2: usize) -> (rank: usize)
    requires
        f2 < files@.len(),
        p2 < files@[f2 as int].entries@.len(),
        total_entries(history_views(files@), files@.len() as int) <= usize::MAX,
    ensures
        rank == ranking_before(history_views(files@), files@.len() as int, f2 as int, p2 as int),
{
    let ghost views = history_views(files@);
    let stamp = files[f2].entries[p2].timestamp;
    let mut rank: usize = 0;
    let mut f1: usize = 0;
    while f1 < files.len()
        invariant
            f1 <= files.len(),
            f2 < files@.len(),
            p2 < files@[f2 as int].entries@.len(),
            views == history_views(files@),
            stamp == views[f2 as int][p2 as int].timestamp,
            rank == ranking_before(views, f1 as int, f2 as int, p2 as int),
            total_entries(views, files@.len() as int) <= usize::MAX,
        decreases files.len() - f1,
    {
        let entries = &files[f1].entries;
        let ghost done = rank;
        let mut p1: usize = 0;
        proof {
            lemma_ranking_before_bound(views, f1 as int, f2 as int, p2 as int);
            lemma_total_entries_grows(views, f1 + 1, files@.len() as int);
        }
        while p1 < entries.len()
            invariant
                p1 <= entries.len(),
                f1 < files.len(),
                f2 < files@.len(),
                p2 < files@[f2 as int].entries@.len(),
                entries == files@[f1 as int].entries,
                views == history_views(files@),
                stamp == views[f2 as int][p2 as int].timestamp,
                rank == done + ranking_before_in_file(
                    views,
                    f1 as int,
                    p1 as int,
                    f2 as int,
                    p2 as int,
                ),
                done <= total_entries(views, f1 as int),
                total_entries(views, f1 + 1) <= usize::MAX,
            decreases entries.len() - p1,
        {
            proof {
                lemma_ranking_before_in_file_bound(views, f1 as int, p1 as int, f2 as int, p2 as int);
                assert(views[f1 as int][p1 as int] == entries@[p1 as int]@);
            }
            if is_ranked_before(&entries[p1].timestamp, f1, p1, &stamp, f2, p2) {
                rank = rank + 1;
            }
            p1 = p1 + 1;
        }
        f1 = f1 + 1;
    }
    rank
}

/// Writes the file `f` again: its kept entries, each at its place.
fn prune_file(files: &Vec<HistoryFile>, keep_count: usize, f: usize) -> (written: Vec<
    TranscriptionEntry,
>)
    requires
        f < files@.len(),
        total_entries(history_views(files@), files@.len() as int) <= usize::MAX,
    ensures
        is_pruned_file(history_views(files@), keep_count as int, f as int, entry_views(written@)),
{
    let ghost views = history_views(files@);
    let ghost keep = keep_count as int;
    let entries = &files[f].entries;
    let n: usize = entries.len();
    assert(views[f as int].len() == n);
    // Which entries are kept, and how many.
    let mut kept: Vec<bool> = Vec::new();
    let mut kept_count: usize = 0;
    let mut p: usize = 0;
    while p < n
        invariant
            p <= n,
            f < files@.len(),
            n == entries@.len(),
            entries == files@[f as int].entries,
            views == history_views(files@),
            keep == keep_count as int,
            total_entries(views, files@.len() as int) <= usize::MAX,
            kept@.len() == p,
            forall|q: int| 0 <= q < p ==> kept@[q] == is_kept(views, keep, f as int, q),
            kept_count == kept_in_file(views, keep, f as int, p as int),
            kept_count <= p,
        decreases n - p,
    {
        let keeps = rank_of(files, f, p) < keep_count;
        kept.push(keeps);
        if keeps {
            kept_count = kept_count + 1;
        }
        p = p + 1;
    }
    // The position of the entry that goes to each place.
    let mut order: Vec<usize> = Vec::new();
    let mut i: usize = 0;
    while i < kept_count
        invariant
            i <= kept_count,
            order@.len() == i,
            forall|k: int| 0 <= k < i ==> order@[k] == 0,
        decreases kept_count - i,
    {
        order.push(0);
        i = i + 1;
    }
    let mut p: usize = 0;
    while p < n
        invariant
            p <= n,
            f < files@.len(),
            n == entries@.len(),
            n == views[f as int].len(),
            entries == files@[f as int].entries,
            views == history_views(files@),
            keep == keep_count as int,
            kept@.len() == n,
            forall|q: int| 0 <= q < n ==> kept@[q] == is_kept(views, keep, f as int, q),
            kept_count == kept_in_file(views, keep, f as int, n as int),
            order@.len() == kept_count,
            forall|k: int| 0 <= k < order@.len() ==> order@[k] < n || n == 0,
            forall|q: int|
                0 <= q < p && #[trigger] is_kept(views, keep, f as int, q) ==> place(
                    views,
                    keep,
                    f as int,
                    q,
                ) < kept_count && order@[place(views, keep, f as int, q) as int] == q,
        decreases n - p,
    {
        if kept[p] {
            // Count the kept entries that are written before this one.
            let stamp = entries[p].timestamp;
            let mut at: usize = 0;
            let mut q: usize = 0;
            while q < n
                invariant
                    q <= n,
                    p < n,
                    f < files@.len(),
                    n == entries@.len(),
                    entries == files@[f as int].entries,
                    views == history_views(files@),
                    kept@.len() == n,
                    forall|r: int| 0 <= r < n ==> kept@[r] == is_kept(views, keep, f as int, r),
                    stamp == views[f as int][p as int].timestamp,
                    at == kept_written_before(views, keep, f as int, q as int, p as int),
                    at <= q,
                decreases n - q,
            {
                proof {
                    assert(views[f as int][q as int] == entries@[q as int]@);
                }
                let other = entries[q].timestamp;
                if kept[q] && (other.is_before(&stamp) || (other.secs == stamp.secs && other.nanos
                    == stamp.nanos && q < p)) {
                    at = at + 1;
                }
                q = q + 1;
            }
            proof {
                lemma_place_in_range(views, keep, f as int, n as int, p as int);
                assert forall|r: int|
                    0 <= r < p && #[trigger] is_kept(views, keep, f as int, r) implies place(
                    views,
                    keep,
                    f as int,
                    r,
                ) != at by {
                    lemma_places_differ(views, keep, f as int, r, p as int);
                }
            }
            order.set(at, p);
        }
        p = p + 1;
    }
    // The entries, in the order of their places.
    let mut written: Vec<TranscriptionEntry> = Vec::new();
    let mut i: usize = 0;
    proof {
        lemma_kept_in_file_bound(views, keep, f as int, n as int);
    }
    while i < kept_count
        invariant
            i <= kept_count,
            kept_count <= n,
            n == entries@.len(),
            order@.len() == kept_count,
            forall|k: int| 0 <= k < order@.len() ==> order@[k] < n || n == 0,
            written@.len() == i,
            forall|k: int| 0 <= k < i ==> (#[trigger] written@[k])@ == entries@[order@[k] as int]@,
        decreases kept_count - i,
    {
        let entry = entries[order[i]].duplicate();
        written.push(entry);
        i = i + 1;
    }
    proof {
        assert forall|q: int|
            0 <= q < views[f as int].len() && #[trigger] is_kept(
                views,
                keep,
                f as int,
                q,
            ) implies place(views, keep, f as int, q) < entry_views(written@).len() && entry_views(
            written@,
        )[place(views, keep, f as int, q) as int] == views[f as int][q] by {
            let at = place(views, keep, f as int, q) as int;
            assert(order@[at] == q);
            assert(entry_views(written@)[at] == written@[at]@);
            assert(views[f as int][q] == entries@[q]@);
        }
    }
    written
}

/// Prunes a history to its `keep_count` most recent entries. The files are
/// given in the order in which they are listed, each with its entries in
/// the order of the file.
///
/// A history of at most `keep_count` entries is left as it is: nothing is
/// dropped and nothing is written. Otherwise all entries but the
/// `keep_count` that rank first are dropped, and every file is written
/// again with the entries it keeps.
pub fn prune_history(keep_count: usize, files: &Vec<HistoryFile>) -> (plan: PrunePlan)
    requires
        total_entries(history_views(files@), files@.len() as int) <= usize::MAX,
    ensures
        total_entries(history_views(files@), files@.len() as int) <= keep_count ==> plan.pruned
            == 0 && plan.rewrites@.len() == 0,
        total_entries(history_views(files@), files@.len() as int) > keep_count ==> plan.pruned
            == total_entries(history_views(files@), files@.len() as int) - keep_count
            && is_pruned_history(files@, keep_count as int, plan.rewrites@),
{
    let total = count_entries_of(files);
    let mut rewrites: Vec<FileRewrite> = Vec::new();
    if total <= keep_count {
        return PrunePlan { pruned: 0, rewrites };
    }
    let mut f: usize = 0;
    while f < files.len()
        invariant
            f <= files.len(),
            total_entries(history_views(files@), files@.len() as int) <= usize::MAX,
            rewrites@.len() == f,
            forall|g: int|
                0 <= g < f ==> (#[trigger] rewrites@[g]).name@ == files@[g].name@
                    && is_pruned_file(
                    history_views(files@),
                    keep_count as int,
                    g,
                    entry_views(rewrites@[g].entries@),
                ),
        decreases files.len() - f,
    {
        let entries = prune_file(files, keep_count, f);
        rewrites.push(FileRewrite { name: files[f].name.clone(), entries });
        f = f + 1;
    }
    PrunePlan { pruned: total - keep_count, rewrites }
}

} // verus!
