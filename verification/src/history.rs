//! The history of transcriptions: its entries, the files they are kept in,
//! and the rules by which it is read and kept short.
//!
//! The history is a directory of files, one per month, with one entry per
//! line. Reading and writing files, and turning a line into an entry and
//! back, is left to the caller. This module frames the lines and decides
//! which entries are shown and which are kept.

use vstd::prelude::*;
use vstd::string::*;
use crate::paths::{join_path, join_path_spec};
use crate::text::{word_count, word_count_spec};

verus! {

/// The year and month of the UTC date at `secs` seconds after the Unix
/// epoch, as `chrono` writes them for the format `%Y-%m`; `None` for a time
/// for which `chrono` has no date.
pub uninterp spec fn year_month_of(secs: i64) -> Option<Seq<char>>;

/// Calls `chrono::DateTime::from_timestamp` and, on the date it returns,
/// `format("%Y-%m")`. Trusted: the result depends on `secs` alone; this
/// library names it `year_month_of`.
#[verifier::external_body]
fn format_year_month(secs: i64) -> (stamp: Option<String>)
    ensures
        text_view(stamp) == year_month_of(secs),
{
    chrono::DateTime::from_timestamp(secs, 0).map(|date| date.format("%Y-%m").to_string())
}

/// The characters of an optional string.
pub open spec fn text_view(text: Option<String>) -> Option<Seq<char>> {
    match text {
        Some(text) => Some(text@),
        None => None,
    }
}

/// A point in time: whole seconds since the Unix epoch, and the nanoseconds
/// past them. Times are ordered by the seconds first, then the nanoseconds.
#[derive(Clone, Copy, Debug, PartialEq, Eq, Structural)]
pub struct Timestamp {
    pub secs: i64,
    pub nanos: u32,
}

/// Whether `a` lies before `b`.
pub open spec fn earlier(a: Timestamp, b: Timestamp) -> bool {
    a.secs < b.secs || (a.secs == b.secs && a.nanos < b.nanos)
}

impl Timestamp {
    /// Whether this time lies before `other`.
    pub fn is_before(&self, other: &Timestamp) -> (before: bool)
        ensures
            before == earlier(*self, *other),
    {
        self.secs < other.secs || (self.secs == other.secs && self.nanos < other.nanos)
    }
}

/// One transcription in the history.
#[derive(Clone, Debug, PartialEq, Eq)]
pub struct TranscriptionEntry {
    pub timestamp: Timestamp,
    pub duration_ms: u64,
    pub model: String,
    pub word_count: usize,
    pub text: String,
}

/// What a `TranscriptionEntry` holds.
pub struct TranscriptionEntryView {
    pub timestamp: Timestamp,
    pub duration_ms: u64,
    pub model: Seq<char>,
    pub word_count: usize,
    pub text: Seq<char>,
}

impl View for TranscriptionEntry {
    type V = TranscriptionEntryView;

    open spec fn view(&self) -> TranscriptionEntryView {
        TranscriptionEntryView {
            timestamp: self.timestamp,
            duration_ms: self.duration_ms,
            model: self.model@,
            word_count: self.word_count,
            text: self.text@,
        }
    }
}

/// The views of the entries in `entries`, in order.
pub open spec fn entry_views(entries: Seq<TranscriptionEntry>) -> Seq<TranscriptionEntryView> {
    entries.map_values(|entry: TranscriptionEntry| entry@)
}

/// The views of the entries of each file in `files`, in order.
pub open spec fn file_views(files: Seq<Vec<TranscriptionEntry>>) -> Seq<
    Seq<TranscriptionEntryView>,
> {
    files.map_values(|file: Vec<TranscriptionEntry>| entry_views(file@))
}

impl TranscriptionEntry {
    /// An entry for `text`, transcribed at `timestamp` by the model `model`
    /// from a recording of `duration_ms` milliseconds. The words of the
    /// text are counted.
    pub fn new(text: String, duration_ms: u64, model: String, timestamp: Timestamp) -> (entry:
        TranscriptionEntry)
        ensures
            entry@ == (TranscriptionEntryView {
                timestamp,
                duration_ms,
                model: model@,
                word_count: word_count_spec(text@) as usize,
                text: text@,
            }),
    {
        let words = word_count(text.as_str());
        TranscriptionEntry { timestamp, duration_ms, model, word_count: words, text }
    }

    /// A copy of this entry.
    pub fn duplicate(&self) -> (copy: TranscriptionEntry)
        ensures
            copy@ == self@,
    {
        TranscriptionEntry {
            timestamp: self.timestamp,
            duration_ms: self.duration_ms,
            model: self.model.clone(),
            word_count: self.word_count,
            text: self.text.clone(),
        }
    }
}

/// Minimum slack, in entries, that a history may grow past its limit before
/// it is pruned.
pub const MIN_PRUNE_SLACK: usize = 20;

/// The number of stored entries above which a history limited to
/// `max_entries` is pruned: the limit plus a fifth of it, and at least
/// `MIN_PRUNE_SLACK` more than the limit. Pruning in batches keeps it rare.
pub open spec fn prune_threshold_spec(max_entries: int) -> int {
    if max_entries / 5 > MIN_PRUNE_SLACK as int {
        max_entries + max_entries / 5
    } else {
        max_entries + MIN_PRUNE_SLACK as int
    }
}

/// Computes the pruning threshold for a history limited to `max_entries`.
pub fn prune_threshold(max_entries: usize) -> (threshold: usize)
    requires
        prune_threshold_spec(max_entries as int) <= usize::MAX,
    ensures
        threshold == prune_threshold_spec(max_entries as int),
{
    let fifth: usize = max_entries / 5;
    let slack: usize = if fifth > MIN_PRUNE_SLACK {
        fifth
    } else {
        MIN_PRUNE_SLACK
    };
    max_entries + slack
}

/// Whether a history of `current_count` entries, limited to `max_entries`,
/// is to be pruned now. A limit of zero means no limit.
pub open spec fn should_prune_spec(current_count: int, max_entries: int) -> bool {
    max_entries > 0 && current_count > prune_threshold_spec(max_entries)
}

/// Decides whether a history is to be pruned after an entry was appended.
pub fn should_prune(current_count: usize, max_entries: usize) -> (prune: bool)
    ensures
        prune == should_prune_spec(current_count as int, max_entries as int),
{
    if max_entries == 0 {
        return false;
    }
    let fifth: usize = max_entries / 5;
    let slack: usize = if fifth > MIN_PRUNE_SLACK {
        fifth
    } else {
        MIN_PRUNE_SLACK
    };
    // `current_count > max_entries + slack`, written so that nothing overflows.
    current_count > max_entries && current_count - max_entries > slack
}

/// The name of the history file for the month with the stamp `year_month`.
pub open spec fn history_file_name(year_month: Seq<char>) -> Seq<char> {
    "transcriptions-"@ + year_month + ".jsonl"@
}

/// The path of the history file in `history_dir` for the month with the
/// stamp `year_month`, where there is one.
pub open spec fn history_file_spec(history_dir: Seq<char>, year_month: Option<Seq<char>>)
    -> Option<Seq<char>> {
    match year_month {
        Some(year_month) => Some(join_path_spec(history_dir, history_file_name(year_month))),
        None => None,
    }
}

/// Builds the path of the history file in `history_dir` for the month with
/// the stamp `year_month`.
pub fn history_file_in(history_dir: &str, year_month: Option<String>) -> (path: Option<String>)
    ensures
        text_view(path) == history_file_spec(history_dir@, text_view(year_month)),
{
    match year_month {
        Some(year_month) => {
            let mut name = "transcriptions-".to_owned();
            name.append(year_month.as_str());
            name.append(".jsonl");
            Some(join_path(history_dir, name.as_str()))
        },
        None => None,
    }
}

/// The path of the history file in `history_dir` for the month in which the
/// time `now_secs`, in seconds since the Unix epoch, falls in UTC. `None`
/// for a time that has no date.
pub fn current_history_file(history_dir: &str, now_secs: i64) -> (path: Option<String>)
    ensures
        text_view(path) == history_file_spec(history_dir@, year_month_of(now_secs)),
{
    history_file_in(history_dir, format_year_month(now_secs))
}

/// The byte that ends a line.
pub const LINE_FEED: u8 = 10;

/// The byte that may stand before the line feed and then belongs to the
/// line ending.
pub const CARRIAGE_RETURN: u8 = 13;

/// The index of the first line feed in `bytes` at or after `from`, or the
/// length of `bytes` if there is none.
pub open spec fn line_end(bytes: Seq<u8>, from: int) -> int
    decreases bytes.len() - from,
{
    if from < 0 || from >= bytes.len() || bytes[from] == LINE_FEED {
        from
    } else {
        line_end(bytes, from + 1)
    }
}

/// The line that starts at `from`, without its line ending: a line feed, or
/// a carriage return and a line feed. A last line without a line feed keeps
/// all its bytes.
pub open spec fn line_at(bytes: Seq<u8>, from: int) -> Seq<u8> {
    let end = line_end(bytes, from);
    if end < bytes.len() && from < end && bytes[end - 1] == CARRIAGE_RETURN {
        bytes.subrange(from, end - 1)
    } else {
        bytes.subrange(from, end)
    }
}

/// The lines of `bytes` from the index `from` on.
pub open spec fn lines_from(bytes: Seq<u8>, from: int) -> Seq<Seq<u8>>
    decreases bytes.len() - from,
    via lines_from_decreases
{
    if from < 0 || from >= bytes.len() {
        Seq::empty()
    } else if line_end(bytes, from) >= bytes.len() {
        seq![line_at(bytes, from)]
    } else {
        seq![line_at(bytes, from)] + lines_from(bytes, line_end(bytes, from) + 1)
    }
}

#[via_fn]
proof fn lines_from_decreases(bytes: Seq<u8>, from: int) {
    if 0 <= from < bytes.len() {
        lemma_line_end_bounds(bytes, from);
    }
}

/// The lines of a file with the content `bytes`.
pub open spec fn lines_of(bytes: Seq<u8>) -> Seq<Seq<u8>> {
    lines_from(bytes, 0)
}

/// A line ends at or after its start, inside the content.
proof fn lemma_line_end_bounds(bytes: Seq<u8>, from: int)
    requires
        0 <= from <= bytes.len(),
    ensures
        from <= line_end(bytes, from) <= bytes.len(),
    decreases bytes.len() - from,
{
    if from < bytes.len() && bytes[from] != LINE_FEED {
        lemma_line_end_bounds(bytes, from + 1);
    }
}

/// The contents of the lines in `lines`, in order.
pub open spec fn line_views(lines: Seq<Vec<u8>>) -> Seq<Seq<u8>> {
    lines.map_values(|line: Vec<u8>| line@)
}

/// Splits the content of a file into its lines.
pub fn split_lines(bytes: &[u8]) -> (lines: Vec<Vec<u8>>)
    ensures
        line_views(lines@) == lines_of(bytes@),
{
    let n: usize = bytes.len();
    let mut lines: Vec<Vec<u8>> = Vec::new();
    let mut from: usize = 0;
    assert(line_views(lines@) + lines_from(bytes@, 0) =~= lines_of(bytes@));
    while from < n
        invariant_except_break
            from <= n,
            line_views(lines@) + lines_from(bytes@, from as int) == lines_of(bytes@),
        invariant
            n == bytes@.len(),
        ensures
            line_views(lines@) == lines_of(bytes@),
        decreases n - from,
    {
        let mut end: usize = from;
        while end < n && bytes[end] != LINE_FEED
            invariant
                n == bytes@.len(),
                from <= end <= n,
                line_end(bytes@, from as int) == line_end(bytes@, end as int),
            decreases n - end,
        {
            end = end + 1;
        }
        let stop: usize = if end < n && from < end && bytes[end - 1] == CARRIAGE_RETURN {
            end - 1
        } else {
            end
        };
        let mut line: Vec<u8> = Vec::new();
        let mut i: usize = from;
        while i < stop
            invariant
                n == bytes@.len(),
                from <= i <= stop <= n,
                line@ == bytes@.subrange(from as int, i as int),
            decreases stop - i,
        {
            line.push(bytes[i]);
            assert(line@ =~= bytes@.subrange(from as int, i + 1));
            i = i + 1;
        }
        let ghost before = line_views(lines@);
        lines.push(line);
        proof {
            assert(line@ == line_at(bytes@, from as int));
            assert(line_views(lines@) =~= before.push(line@));
            assert(before.push(line@) + lines_from(bytes@, end + 1) =~= before + lines_from(
                bytes@,
                from as int,
            ));
        }
        if end == n {
            proof {
                assert(lines_from(bytes@, end + 1) =~= Seq::<Seq<u8>>::empty());
                assert(line_views(lines@) =~= lines_of(bytes@));
            }
            break ;
        }
        from = end + 1;
        proof {
            if from >= n {
                assert(lines_from(bytes@, from as int) =~= Seq::<Seq<u8>>::empty());
                assert(line_views(lines@) =~= lines_of(bytes@));
            }
        }
    }
    lines
}

/// The number of lines in the first `n` files of `files`.
pub open spec fn lines_in(files: Seq<Vec<u8>>, n: int) -> int
    decreases n,
{
    if n <= 0 {
        0
    } else {
        lines_in(files, n - 1) + lines_of(files[n - 1]@).len()
    }
}

/// Line counts only grow from file to file.
proof fn lemma_lines_in_grows(files: Seq<Vec<u8>>, m: int, n: int)
    requires
        0 <= m <= n,
    ensures
        0 <= lines_in(files, m) <= lines_in(files, n),
    decreases n,
{
    if m < n {
        lemma_lines_in_grows(files, m, n - 1);
    } else if n > 0 {
        lemma_lines_in_grows(files, m - 1, n - 1);
    }
}

/// Counts the entries of a history, given the content of each of its files:
/// every line counts as one entry.
pub fn count_entries(files: &Vec<Vec<u8>>) -> (count: usize)
    requires
        lines_in(files@, files@.len() as int) <= usize::MAX,
    ensures
        count == lines_in(files@, files@.len() as int),
{
    let mut count: usize = 0;
    let mut i: usize = 0;
    while i < files.len()
        invariant
            i <= files.len(),
            count == lines_in(files@, i as int),
            lines_in(files@, files@.len() as int) <= usize::MAX,
        decreases files.len() - i,
    {
        let lines = split_lines(files[i].as_slice());
        proof {
            lemma_lines_in_grows(files@, i + 1, files@.len() as int);
            assert(lines@.len() == line_views(lines@).len());
        }
        count = count + lines.len();
        i = i + 1;
    }
    count
}

/// All entries of a history, newest first, given the entries of each file
/// in the order of the file, and the files from the newest to the oldest.
pub open spec fn newest_first(files: Seq<Seq<TranscriptionEntryView>>) -> Seq<
    TranscriptionEntryView,
> {
    files.map_values(|file: Seq<TranscriptionEntryView>| file.reverse()).flatten()
}

/// The `count` most recent entries of a history, newest first, or all of
/// them if there are fewer.
pub open spec fn recent_entries(files: Seq<Seq<TranscriptionEntryView>>, count: int) -> Seq<
    TranscriptionEntryView,
> {
    let all = newest_first(files);
    if count >= all.len() {
        all
    } else if count <= 0 {
        Seq::empty()
    } else {
        all.take(count)
    }
}

proof fn lemma_newest_first_push(
    files: Seq<Seq<TranscriptionEntryView>>,
    file: Seq<TranscriptionEntryView>,
)
    ensures
        newest_first(files.push(file)) == newest_first(files) + file.reverse(),
{
    let turn = |file: Seq<TranscriptionEntryView>| file.reverse();
    assert(files.push(file).map_values(turn) =~= files.map_values(turn).push(file.reverse()));
    files.map_values(turn).lemma_flatten_push(file.reverse());
}

/// Reads the `count` most recent entries of a history, newest first. The
/// files are given from the newest to the oldest, each with its entries in
/// the order of the file.
pub fn read_recent(files: &Vec<Vec<TranscriptionEntry>>, count: usize) -> (entries: Vec<
    TranscriptionEntry,
>)
    ensures
        entry_views(entries@) == recent_entries(file_views(files@), count as int),
{
    let mut entries: Vec<TranscriptionEntry> = Vec::new();
    let ghost all = newest_first(file_views(files@));
    let mut f: usize = 0;
    proof {
        assert(file_views(files@).take(0) =~= Seq::<Seq<TranscriptionEntryView>>::empty());
        assert(newest_first(file_views(files@).take(0)) =~= Seq::<TranscriptionEntryView>::empty())
            by {
            reveal_with_fuel(Seq::flatten, 1);
        }
    }
    while f < files.len() && entries.len() < count
        invariant
            f <= files.len(),
            entries@.len() <= count,
            all == newest_first(file_views(files@)),
            entries@.len() < count ==> entry_views(entries@) == newest_first(
                file_views(files@).take(f as int),
            ),
            entries@.len() == count ==> entries@.len() <= all.len() && entry_views(entries@)
                == all.take(count as int),
            newest_first(file_views(files@).take(f as int)).len() <= all.len(),
            newest_first(file_views(files@).take(f as int)) == all.take(
                newest_first(file_views(files@).take(f as int)).len() as int,
            ),
        decreases files.len() - f,
    {
        let file = &files[f];
        let ghost done = newest_first(file_views(files@).take(f as int));
        let ghost turned = entry_views(file@).reverse();
        proof {
            assert(file_views(files@).take(f + 1) =~= file_views(files@).take(f as int).push(
                entry_views(file@),
            ));
            lemma_newest_first_push(file_views(files@).take(f as int), entry_views(file@));
            lemma_newest_first_prefix(file_views(files@), f + 1);
        }
        let mut i: usize = file.len();
        while i > 0 && entries.len() < count
            invariant
                i <= file.len(),
                file == files@[f as int],
                entries@.len() <= count,
                turned == entry_views(file@).reverse(),
                done + turned == all.take((done + turned).len() as int),
                (done + turned).len() <= all.len(),
                entries@.len() < count ==> entry_views(entries@) == done + turned.take(
                    file.len() - i,
                ),
                entries@.len() == count ==> entries@.len() <= all.len() && entry_views(entries@)
                    == all.take(count as int),
            decreases i,
        {
            let ghost before = entry_views(entries@);
            let entry = file[i - 1].duplicate();
            entries.push(entry);
            proof {
                let k = file.len() - i;
                assert(turned[k] == entry_views(file@)[i - 1]);
                assert(entry_views(entries@) =~= before.push(entry@));
                assert(before.push(entry@) =~= done + turned.take(k + 1));
                assert(done + turned.take(k + 1) =~= all.take((done + turned).len() as int).take(
                    done.len() + k + 1,
                ));
                assert(all.take((done + turned).len() as int).take(done.len() + k + 1) =~= all.take(
                    done.len() + k + 1,
                ));
            }
            i = i - 1;
        }
        proof {
            if entries@.len() < count {
                assert(turned.take(file.len() as int) =~= turned);
            }
        }
        f = f + 1;
    }
    proof {
        if entries@.len() < count {
            assert(file_views(files@).take(files@.len() as int) =~= file_views(files@));
        }
    }
    entries
}

/// The newest entries of the first files are the first of the newest
/// entries of all files.
proof fn lemma_newest_first_prefix(files: Seq<Seq<TranscriptionEntryView>>, n: int)
    requires
        0 <= n <= files.len(),
    ensures
        newest_first(files.take(n)).len() <= newest_first(files).len(),
        newest_first(files.take(n)) == newest_first(files).take(
            newest_first(files.take(n)).len() as int,
        ),
    decreases files.len() - n,
{
    if n == files.len() {
        assert(files.take(n) =~= files);
        assert(newest_first(files).take(newest_first(files).len() as int) =~= newest_first(files));
    } else {
        lemma_newest_first_prefix(files, n + 1);
        assert(files.take(n + 1) =~= files.take(n).push(files[n]));
        lemma_newest_first_push(files.take(n), files[n]);
        let shorter = newest_first(files.take(n));
        let longer = newest_first(files.take(n + 1));
        let all = newest_first(files);
        assert(shorter =~= longer.take(shorter.len() as int));
        assert(longer.take(shorter.len() as int) =~= all.take(longer.len() as int).take(
            shorter.len() as int,
        ));
        assert(all.take(longer.len() as int).take(shorter.len() as int) =~= all.take(
            shorter.len() as int,
        ));
    }
}

} // verus!
