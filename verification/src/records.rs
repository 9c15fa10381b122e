//! The history as a user interface shows it: records, searches and totals.

use vstd::prelude::*;
use vstd::string::*;
use vstd::utf8::*;
use crate::history::{entry_views, text_view, Timestamp, TranscriptionEntry, TranscriptionEntryView};
use crate::text::{chars_of, to_lowercase, unicode_lowercase, word_count, word_count_spec};

verus! {

/// The time `secs` seconds and `nanos` nanoseconds after the Unix epoch in
/// UTC, as `chrono` writes it by RFC 3339; `None` for a time for which
/// `chrono` has no date.
pub uninterp spec fn rfc3339_of(secs: i64, nanos: u32) -> Option<Seq<char>>;

/// Calls `chrono::DateTime::from_timestamp` and, on the date it returns,
/// `to_rfc3339`. Trusted: the result depends on `secs` and `nanos` alone;
/// this library names it `rfc3339_of`.
#[verifier::external_body]
fn format_rfc3339(secs: i64, nanos: u32) -> (text: Option<String>)
    ensures
        text_view(text) == rfc3339_of(secs, nanos),
{
    chrono::DateTime::from_timestamp(secs, nanos).map(|date| date.to_rfc3339())
}

/// One transcription as a user interface shows it.
#[derive(Clone, Debug, PartialEq, Eq)]
pub struct TranscriptionRecord {
    pub id: i64,
    pub timestamp: String,
    pub text: String,
    pub duration_ms: i64,
    pub word_count: i64,
    pub character_count: i64,
    pub keystrokes_saved: i64,
    pub model_name: String,
}

/// What a `TranscriptionRecord` holds.
pub struct TranscriptionRecordView {
    pub id: i64,
    pub timestamp: Seq<char>,
    pub text: Seq<char>,
    pub duration_ms: i64,
    pub word_count: i64,
    pub character_count: i64,
    pub keystrokes_saved: i64,
    pub model_name: Seq<char>,
}

impl View for TranscriptionRecord {
    type V = TranscriptionRecordView;

    open spec fn view(&self) -> TranscriptionRecordView {
        TranscriptionRecordView {
            id: self.id,
            timestamp: self.timestamp@,
            text: self.text@,
            duration_ms: self.duration_ms,
            word_count: self.word_count,
            character_count: self.character_count,
            keystrokes_saved: self.keystrokes_saved,
            model_name: self.model_name@,
        }
    }
}

/// The views of the records in `records`, in order.
pub open spec fn record_views(records: Seq<TranscriptionRecord>) -> Seq<TranscriptionRecordView> {
    records.map_values(|record: TranscriptionRecord| record@)
}

/// The length of `text` in UTF-8 bytes, as a machine holds it.
pub open spec fn byte_len(text: Seq<char>) -> usize {
    encode_utf8(text).len() as usize
}

/// The record for `entry`, shown at the index `index` with the time
/// written as `timestamp`. Numbers are carried over in 64 bits with a sign;
/// the characters are counted as the bytes of the text in UTF-8, and every
/// one of them counts as a keystroke saved.
pub open spec fn record_of(index: int, entry: TranscriptionEntryView, timestamp: Seq<char>)
    -> TranscriptionRecordView {
    TranscriptionRecordView {
        id: index as i64,
        timestamp,
        text: entry.text,
        duration_ms: entry.duration_ms as i64,
        word_count: entry.word_count as i64,
        character_count: byte_len(entry.text) as i64,
        keystrokes_saved: byte_len(entry.text) as i64,
        model_name: entry.model,
    }
}

/// Makes the record for an entry that is shown at the index `index`, with
/// its time written as `timestamp`.
pub fn history_record(index: usize, entry: &TranscriptionEntry, timestamp: String) -> (record:
    TranscriptionRecord)
    ensures
        record@ == record_of(index as int, entry@, timestamp@),
{
    let characters = #[verifier::truncate]
    (entry.text.as_str().len() as i64);
    TranscriptionRecord {
        id: #[verifier::truncate]
        (index as i64),
        timestamp,
        text: entry.text.clone(),
        duration_ms: #[verifier::truncate]
        (entry.duration_ms as i64),
        word_count: #[verifier::truncate]
        (entry.word_count as i64),
        character_count: characters,
        keystrokes_saved: characters,
        model_name: entry.model.clone(),
    }
}

/// Whether `records` are the records of `entries`, in order, numbered from
/// zero, each with its time written by RFC 3339.
pub open spec fn are_records_of(
    records: Seq<TranscriptionRecordView>,
    entries: Seq<TranscriptionEntryView>,
) -> bool {
    &&& records.len() == entries.len()
    &&& forall|i: int|
        0 <= i < entries.len() ==> rfc3339_of(
            entries[i].timestamp.secs,
            entries[i].timestamp.nanos,
        ) == Some((#[trigger] records[i]).timestamp) && records[i] == record_of(
            i,
            entries[i],
            records[i].timestamp,
        )
}

/// Whether every entry of `entries` has a time that can be written.
pub open spec fn all_times_can_be_written(entries: Seq<TranscriptionEntryView>) -> bool {
    forall|i: int|
        0 <= i < entries.len() ==> rfc3339_of(
            (#[trigger] entries[i]).timestamp.secs,
            entries[i].timestamp.nanos,
        ) is Some
}

/// Makes the records of the entries of a history, which are given newest
/// first. `None` if the time of an entry cannot be written.
pub fn get_history(entries: &Vec<TranscriptionEntry>) -> (records: Option<
    Vec<TranscriptionRecord>,
>)
    ensures
        records is Some <==> all_times_can_be_written(entry_views(entries@)),
        records is Some ==> are_records_of(record_views(records->0@), entry_views(entries@)),
{
    let mut records: Vec<TranscriptionRecord> = Vec::new();
    let mut i: usize = 0;
    while i < entries.len()
        invariant
            i <= entries.len(),
            records@.len() == i,
            forall|k: int|
                0 <= k < i ==> rfc3339_of(
                    entries@[k]@.timestamp.secs,
                    entries@[k]@.timestamp.nanos,
                ) == Some((#[trigger] records@[k])@.timestamp) && records@[k]@ == record_of(
                    k,
                    entries@[k]@,
                    records@[k]@.timestamp,
                ),
        decreases entries.len() - i,
    {
        let entry = &entries[i];
        match format_rfc3339(entry.timestamp.secs, entry.timestamp.nanos) {
            Some(timestamp) => {
                records.push(history_record(i, entry, timestamp));
            },
            None => {
                assert(entry_views(entries@)[i as int] == entries@[i as int]@);
                return None;
            },
        }
        i = i + 1;
    }
    proof {
        assert forall|k: int| 0 <= k < entries@.len() implies rfc3339_of(
            (#[trigger] entry_views(entries@)[k]).timestamp.secs,
            entry_views(entries@)[k].timestamp.nanos,
        ) is Some by {
            assert(records@[k]@.timestamp == records@[k]@.timestamp);
        }
        assert(are_records_of(record_views(records@), entry_views(entries@))) by {
            assert forall|k: int| 0 <= k < entries@.len() implies rfc3339_of(
                entry_views(entries@)[k].timestamp.secs,
                entry_views(entries@)[k].timestamp.nanos,
            ) == Some((#[trigger] record_views(records@)[k]).timestamp) && record_views(
                records@,
            )[k] == record_of(k, entry_views(entries@)[k], record_views(records@)[k].timestamp) by {
                assert(record_views(records@)[k] == records@[k]@);
            }
        }
    }
    Some(records)
}

/// Whether `needle` occurs in `text` at the index `at`.
pub open spec fn occurs_at(text: Seq<char>, needle: Seq<char>, at: int) -> bool {
    0 <= at && at + needle.len() <= text.len() && text.subrange(at, at + needle.len()) == needle
}

/// Whether `needle` occurs somewhere in `text`.
pub open spec fn contains_text(text: Seq<char>, needle: Seq<char>) -> bool {
    exists|at: int| occurs_at(text, needle, at)
}

/// Tells whether `needle` occurs somewhere in `text`.
pub fn text_contains(text: &str, needle: &str) -> (found: bool)
    ensures
        found == contains_text(text@, needle@),
{
    let hay = chars_of(text);
    let pin = chars_of(needle);
    if pin.len() > hay.len() {
        assert forall|at: int| !occurs_at(text@, needle@, at) by {}
        return false;
    }
    let last: usize = hay.len() - pin.len();
    let mut at: usize = 0;
    while at <= last
        invariant
            at <= last + 1,
            pin@.len() <= hay@.len() <= usize::MAX,
            last == hay@.len() - pin@.len(),
            hay@ == text@,
            pin@ == needle@,
            forall|k: int| 0 <= k < at ==> !occurs_at(text@, needle@, k),
        decreases last + 1 - at,
    {
        let mut j: usize = 0;
        while j < pin.len() && hay[at + j] == pin[j]
            invariant
                j <= pin@.len(),
                at + pin@.len() <= hay@.len() <= usize::MAX,
                forall|k: int| 0 <= k < j ==> hay@[at + k] == pin@[k],
            decreases pin@.len() - j,
        {
            j = j + 1;
        }
        if j == pin.len() {
            assert(text@.subrange(at as int, at + needle@.len()) =~= needle@);
            assert(occurs_at(text@, needle@, at as int));
            return true;
        }
        assert(!occurs_at(text@, needle@, at as int)) by {
            if occurs_at(text@, needle@, at as int) {
                assert(text@.subrange(at as int, at + needle@.len())[j as int] == needle@[j as int]);
            }
        }
        if at == last {
            assert forall|k: int| !occurs_at(text@, needle@, k) by {}
            return false;
        }
        at = at + 1;
    }
    assert forall|k: int| !occurs_at(text@, needle@, k) by {}
    false
}

/// Whether an entry with the text `text` matches a search for `query`: the
/// query occurs in the text, both taken in lowercase.
pub open spec fn matches_query(text: Seq<char>, query: Seq<char>) -> bool {
    contains_text(unicode_lowercase(text), unicode_lowercase(query))
}

/// The entries among `entries` that match a search for `query`, in order.
pub open spec fn matching_entries(entries: Seq<TranscriptionEntryView>, query: Seq<char>) -> Seq<
    TranscriptionEntryView,
> {
    entries.filter(|entry: TranscriptionEntryView| matches_query(entry.text, query))
}

/// Picks the entries that match a search for `query`, in order.
pub fn matching(entries: &Vec<TranscriptionEntry>, query: &str) -> (found: Vec<TranscriptionEntry>)
    ensures
        entry_views(found@) == matching_entries(entry_views(entries@), query@),
{
    let lowered_query = to_lowercase(query);
    let ghost wanted = |entry: TranscriptionEntryView| matches_query(entry.text, query@);
    let mut found: Vec<TranscriptionEntry> = Vec::new();
    let mut i: usize = 0;
    proof {
        assert(entry_views(entries@).take(0) =~= Seq::<TranscriptionEntryView>::empty());
        assert(entry_views(entries@).take(0).filter(wanted) =~= Seq::<
            TranscriptionEntryView,
        >::empty()) by {
            reveal(Seq::filter);
        }
        assert(entry_views(found@) =~= Seq::<TranscriptionEntryView>::empty());
    }
    while i < entries.len()
        invariant
            i <= entries.len(),
            lowered_query@ == unicode_lowercase(query@),
            wanted == |entry: TranscriptionEntryView| matches_query(entry.text, query@),
            entry_views(found@) == entry_views(entries@).take(i as int).filter(wanted),
        decreases entries.len() - i,
    {
        let entry = &entries[i];
        let lowered_text = to_lowercase(entry.text.as_str());
        proof {
            let earlier = entry_views(entries@).take(i as int);
            assert(entry_views(entries@).take(i + 1) =~= earlier.push(entry@));
            earlier.lemma_filter_push(entry@, wanted);
        }
        if text_contains(lowered_text.as_str(), lowered_query.as_str()) {
            let ghost before = entry_views(found@);
            found.push(entry.duplicate());
            assert(entry_views(found@) =~= before.push(entry@));
        }
        i = i + 1;
    }
    proof {
        assert(entry_views(entries@).take(entries@.len() as int) =~= entry_views(entries@));
    }
    found
}

/// Makes the records of the entries that match a search for `query`,
/// numbered from zero in the order of the entries. `None` if the time of a
/// matching entry cannot be written.
pub fn search_history(entries: &Vec<TranscriptionEntry>, query: &str) -> (records: Option<
    Vec<TranscriptionRecord>,
>)
    ensures
        records is Some <==> all_times_can_be_written(
            matching_entries(entry_views(entries@), query@),
        ),
        records is Some ==> are_records_of(
            record_views(records->0@),
            matching_entries(entry_views(entries@), query@),
        ),
{
    let found = matching(entries, query);
    get_history(&found)
}

/// The totals over a history.
#[derive(Clone, Copy, Debug, PartialEq, Eq, Structural)]
pub struct HistoryTotals {
    pub total_transcriptions: i64,
    pub total_words: i64,
    pub total_duration_ms: i64,
    pub total_keystrokes_saved: i64,
}

/// The sum of the words of the first `n` entries.
pub open spec fn words_sum(entries: Seq<TranscriptionEntryView>, n: int) -> int
    decreases n,
{
    if n <= 0 {
        0
    } else {
        words_sum(entries, n - 1) + entries[n - 1].word_count
    }
}

/// The sum of the durations of the first `n` entries.
pub open spec fn duration_sum(entries: Seq<TranscriptionEntryView>, n: int) -> int
    decreases n,
{
    if n <= 0 {
        0
    } else {
        duration_sum(entries, n - 1) + entries[n - 1].duration_ms
    }
}

/// The sum of the keystrokes saved by the first `n` entries: the bytes of
/// their texts in UTF-8.
pub open spec fn keystrokes_sum(entries: Seq<TranscriptionEntryView>, n: int) -> int
    decreases n,
{
    if n <= 0 {
        0
    } else {
        keystrokes_sum(entries, n - 1) + byte_len(entries[n - 1].text)
    }
}

/// The totals over `entries`, where each of them fits in 64 bits with a
/// sign.
pub open spec fn totals_of(entries: Seq<TranscriptionEntryView>) -> Option<HistoryTotals> {
    let n = entries.len() as int;
    if n <= i64::MAX && words_sum(entries, n) <= i64::MAX && duration_sum(entries, n) <= i64::MAX
        && keystrokes_sum(entries, n) <= i64::MAX {
        Some(
            HistoryTotals {
                total_transcriptions: n as i64,
                total_words: words_sum(entries, n) as i64,
                total_duration_ms: duration_sum(entries, n) as i64,
                total_keystrokes_saved: keystrokes_sum(entries, n) as i64,
            },
        )
    } else {
        None
    }
}

proof fn lemma_sums_grow(entries: Seq<TranscriptionEntryView>, m: int, n: int)
    requires
        0 <= m <= n,
    ensures
        0 <= words_sum(entries, m) <= words_sum(entries, n),
        0 <= duration_sum(entries, m) <= duration_sum(entries, n),
        0 <= keystrokes_sum(entries, m) <= keystrokes_sum(entries, n),
    decreases n,
{
    if m < n {
        lemma_sums_grow(entries, m, n - 1);
    } else if n > 0 {
        lemma_sums_grow(entries, m - 1, n - 1);
    }
}

/// Adds up a history: the number of its entries, their words, their
/// durations and the keystrokes they saved. `None` if a total does not fit
/// in 64 bits with a sign.
pub fn get_statistics(entries: &Vec<TranscriptionEntry>) -> (totals: Option<HistoryTotals>)
    ensures
        totals == totals_of(entry_views(entries@)),
{
    let ghost views = entry_views(entries@);
    let limit: u64 = 0x7fff_ffff_ffff_ffff;
    let mut words: u64 = 0;
    let mut duration: u64 = 0;
    let mut keystrokes: u64 = 0;
    let mut i: usize = 0;
    while i < entries.len()
        invariant
            i <= entries.len(),
            views == entry_views(entries@),
            limit == i64::MAX,
            words == words_sum(views, i as int) <= limit,
            duration == duration_sum(views, i as int) <= limit,
            keystrokes == keystrokes_sum(views, i as int) <= limit,
        decreases entries.len() - i,
    {
        let entry = &entries[i];
        assert(views[i as int] == entry@);
        let word_count = entry.word_count as u64;
        let bytes = entry.text.as_str().len() as u64;
        if word_count > limit - words || entry.duration_ms > limit - duration || bytes > limit
            - keystrokes {
            proof {
                lemma_sums_grow(views, i + 1, views.len() as int);
            }
            return None;
        }
        words = words + word_count;
        duration = duration + entry.duration_ms;
        keystrokes = keystrokes + bytes;
        i = i + 1;
    }
    if entries.len() as u64 > limit {
        return None;
    }
    Some(
        HistoryTotals {
            total_transcriptions: entries.len() as i64,
            total_words: words as i64,
            total_duration_ms: duration as i64,
            total_keystrokes_saved: keystrokes as i64,
        },
    )
}

/// What the database notes of a text beside the text itself.
#[derive(Clone, Copy, Debug, PartialEq, Eq, Structural)]
pub struct TextCounts {
    pub word_count: i64,
    pub character_count: i64,
    pub keystrokes_saved: i64,
}

/// The counts of `text`: its words, its characters, and the keystrokes it
/// saved, one for each character.
pub open spec fn text_counts_spec(text: Seq<char>) -> TextCounts {
    TextCounts {
        word_count: (word_count_spec(text) as usize) as i64,
        character_count: (text.len() as usize) as i64,
        keystrokes_saved: (text.len() as usize) as i64,
    }
}

/// Counts the words and characters of a text for the database.
pub fn text_counts(text: &str) -> (counts: TextCounts)
    ensures
        counts == text_counts_spec(text@),
{
    let characters = #[verifier::truncate]
    (text.unicode_len() as i64);
    TextCounts {
        word_count: #[verifier::truncate]
        (word_count(text) as i64),
        character_count: characters,
        keystrokes_saved: characters,
    }
}

/// A downloaded model as the database records it.
#[derive(Clone, Debug, PartialEq, Eq)]
pub struct ModelRecord {
    pub name: String,
    pub filename: String,
    pub size_bytes: i64,
    pub downloaded_at: Option<String>,
    pub is_active: bool,
}

impl ModelRecord {
    /// The record for one row of the table of models, in which a number
    /// other than zero marks the model in use.
    pub fn from_row(
        name: String,
        filename: String,
        size_bytes: i64,
        downloaded_at: Option<String>,
        active_flag: i64,
    ) -> (record: ModelRecord)
        ensures
            record.name == name,
            record.filename == filename,
            record.size_bytes == size_bytes,
            record.downloaded_at == downloaded_at,
            record.is_active == (active_flag != 0),
    {
        ModelRecord { name, filename, size_bytes, downloaded_at, is_active: active_flag != 0 }
    }
}

} // verus!
