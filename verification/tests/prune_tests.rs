use transcribble::history::{read_recent, Timestamp, TranscriptionEntry};
use transcribble::prune::{prune_history, FileRewrite, HistoryFile, PrunePlan};

const NOW: i64 = 1_700_000_000;

fn entry_at(text: &str, secs: i64, nanos: u32) -> TranscriptionEntry {
    TranscriptionEntry::new(
        text.to_string(),
        1000,
        "test-model".to_string(),
        Timestamp { secs, nanos },
    )
}

/// An entry that was made `minutes_ago` minutes before `NOW`.
fn create_entry(text: &str, minutes_ago: i64) -> TranscriptionEntry {
    entry_at(text, NOW - minutes_ago * 60, 0)
}

fn file(name: &str, entries: Vec<TranscriptionEntry>) -> HistoryFile {
    HistoryFile { name: name.to_string(), entries }
}

/// The history as it is after the plan is carried out: files without
/// entries are gone.
fn carry_out(files: Vec<HistoryFile>, plan: &PrunePlan) -> Vec<HistoryFile> {
    if plan.pruned == 0 {
        assert!(plan.rewrites.is_empty());
        return files;
    }
    assert_eq!(plan.rewrites.len(), files.len());
    plan.rewrites
        .iter()
        .filter(|rewrite| !rewrite.entries.is_empty())
        .map(|rewrite| file(&rewrite.name, rewrite.entries.clone()))
        .collect()
}

fn count(files: &[HistoryFile]) -> usize {
    files.iter().map(|f| f.entries.len()).sum()
}

fn recent(files: &[HistoryFile], n: usize) -> Vec<TranscriptionEntry> {
    let entries: Vec<Vec<TranscriptionEntry>> = files.iter().map(|f| f.entries.clone()).collect();
    read_recent(&entries, n)
}

fn texts(entries: &[TranscriptionEntry]) -> Vec<&str> {
    entries.iter().map(|e| e.text.as_str()).collect()
}

#[test]
fn test_prune_removes_oldest() {
    // Add 10 entries with increasing timestamps
    let mut entries = Vec::new();
    for i in 0..10 {
        entries.push(create_entry(&format!("Entry {}", i), (9 - i) as i64));
    }
    let files = vec![file("transcriptions-2023-11.jsonl", entries)];

    assert_eq!(count(&files), 10);

    // Prune to keep only 5
    let plan = prune_history(5, &files);
    let pruned = plan.pruned;
    assert_eq!(pruned, 5);
    let files = carry_out(files, &plan);
    assert_eq!(count(&files), 5);

    // Check that the newest 5 remain
    let remaining = recent(&files, 10);
    assert_eq!(remaining.len(), 5);
    assert_eq!(remaining[0].text, "Entry 9"); // newest
    assert_eq!(remaining[4].text, "Entry 5"); // oldest remaining
}

#[test]
fn test_prune_no_op_when_under_limit() {
    // Add 5 entries
    let mut entries = Vec::new();
    for i in 0..5 {
        entries.push(create_entry(&format!("Entry {}", i), 0));
    }
    let files = vec![file("transcriptions-2023-11.jsonl", entries)];

    // Try to prune to 10 (more than we have)
    let plan = prune_history(10, &files);
    assert_eq!(plan.pruned, 0);
    assert_eq!(plan.rewrites, Vec::new());
    let files = carry_out(files, &plan);
    assert_eq!(count(&files), 5);
}

#[test]
fn test_prune_empty_history() {
    let plan = prune_history(5, &Vec::new());
    assert_eq!(plan.pruned, 0);
    assert_eq!(plan, PrunePlan { pruned: 0, rewrites: Vec::new() });
}

#[test]
fn test_prune_to_zero() {
    // Add entries
    let mut entries = Vec::new();
    for i in 0..5 {
        entries.push(create_entry(&format!("Entry {}", i), 0));
    }
    let files = vec![file("transcriptions-2023-11.jsonl", entries)];

    // Prune to 0
    let plan = prune_history(0, &files);
    assert_eq!(plan.pruned, 5);
    let files = carry_out(files, &plan);
    assert_eq!(count(&files), 0);
}

#[test]
fn test_prune_deletes_empty_files() {
    // Old entries in file1
    let old_entry = entry_at("Old", NOW - 60 * 86_400, 0);
    let file1 = file("transcriptions-2024-01.jsonl", vec![old_entry]);

    // New entries in file2
    let new_entry = entry_at("New", NOW, 0);
    let file2 = file("transcriptions-2024-02.jsonl", vec![new_entry.clone()]);

    // Files are listed newest first.
    let files = vec![file2, file1];

    // Prune to keep only 1 (the newest)
    let plan = prune_history(1, &files);
    assert_eq!(
        plan.rewrites,
        vec![
            FileRewrite {
                name: "transcriptions-2024-02.jsonl".to_string(),
                entries: vec![new_entry],
            },
            // Old file should be deleted
            FileRewrite { name: "transcriptions-2024-01.jsonl".to_string(), entries: vec![] },
        ]
    );
    let files = carry_out(files, &plan);
    assert_eq!(files.len(), 1);
    assert_eq!(files[0].name, "transcriptions-2024-02.jsonl");
    assert_eq!(count(&files), 1);
}

#[test]
fn test_large_history_pruning() {
    // Add 100 entries
    let mut entries = Vec::new();
    for i in 0..100 {
        entries.push(create_entry(&format!("Entry {}", i), (99 - i) as i64));
    }
    let files = vec![file("transcriptions-2023-11.jsonl", entries)];

    assert_eq!(count(&files), 100);

    // Prune to 25
    let plan = prune_history(25, &files);
    assert_eq!(plan.pruned, 75);
    let files = carry_out(files, &plan);
    assert_eq!(count(&files), 25);

    // Verify we kept the newest
    let remaining = recent(&files, 30);
    assert_eq!(remaining.len(), 25);
    assert_eq!(remaining[0].text, "Entry 99");
    assert_eq!(remaining[24].text, "Entry 75");
}

#[test]
fn pruned_files_are_written_oldest_first() {
    // A file whose lines are out of order.
    let entries = vec![
        create_entry("c", 10),
        create_entry("e", 1),
        create_entry("a", 30),
        create_entry("d", 5),
        create_entry("b", 20),
    ];
    let files = vec![file("h.jsonl", entries)];
    let plan = prune_history(3, &files);
    assert_eq!(plan.pruned, 2);
    assert_eq!(texts(&plan.rewrites[0].entries), vec!["c", "d", "e"]);
    let plan = prune_history(4, &files);
    assert_eq!(texts(&plan.rewrites[0].entries), vec!["b", "c", "d", "e"]);
}

#[test]
fn entries_of_the_same_time_are_kept_in_listing_order() {
    // Five entries of one instant in two files, the newer file listed first.
    let newer = vec![entry_at("n0", NOW, 7), entry_at("n1", NOW, 7), entry_at("n2", NOW, 7)];
    let older = vec![entry_at("o0", NOW, 7), entry_at("o1", NOW, 7)];
    let files = vec![file("b.jsonl", newer), file("a.jsonl", older)];
    let plan = prune_history(4, &files);
    assert_eq!(plan.pruned, 1);
    assert_eq!(texts(&plan.rewrites[0].entries), vec!["n0", "n1", "n2"]);
    assert_eq!(texts(&plan.rewrites[1].entries), vec!["o0"]);
    let plan = prune_history(2, &files);
    assert_eq!(plan.pruned, 3);
    assert_eq!(texts(&plan.rewrites[0].entries), vec!["n0", "n1"]);
    assert_eq!(texts(&plan.rewrites[1].entries), Vec::<&str>::new());
}

#[test]
fn nanoseconds_decide_between_entries_of_one_second() {
    let entries = vec![entry_at("late", 50, 900), entry_at("early", 50, 100), entry_at("mid", 50, 500)];
    let files = vec![file("h.jsonl", entries)];
    let plan = prune_history(2, &files);
    assert_eq!(texts(&plan.rewrites[0].entries), vec!["mid", "late"]);
    let plan = prune_history(1, &files);
    assert_eq!(texts(&plan.rewrites[0].entries), vec!["late"]);
}

#[test]
fn pruning_ranks_entries_across_files() {
    let march = vec![create_entry("m1", 3), create_entry("m2", 1)];
    // An entry with a time that does not fit its file still ranks by its time.
    let february = vec![create_entry("f1", 4000), create_entry("stray", 2)];
    let january = vec![create_entry("j1", 9000)];
    let files = vec![file("03.jsonl", march), file("02.jsonl", february), file("01.jsonl", january)];
    let plan = prune_history(3, &files);
    assert_eq!(plan.pruned, 2);
    assert_eq!(texts(&plan.rewrites[0].entries), vec!["m1", "m2"]);
    assert_eq!(texts(&plan.rewrites[1].entries), vec!["stray"]);
    assert_eq!(texts(&plan.rewrites[2].entries), Vec::<&str>::new());
    assert_eq!(plan.rewrites[0].name, "03.jsonl");
    assert_eq!(plan.rewrites[1].name, "02.jsonl");
    assert_eq!(plan.rewrites[2].name, "01.jsonl");
}

#[test]
fn pruning_agrees_with_a_stable_sort() {
    // Times with many ties, spread over three files.
    let mut files = Vec::new();
    let mut seed: u64 = 12345;
    for f in 0..3 {
        let mut entries = Vec::new();
        for p in 0..17 {
            seed = seed.wrapping_mul(6364136223846793005).wrapping_add(1442695040888963407);
            let secs = ((seed >> 33) % 7) as i64;
            entries.push(entry_at(&format!("{}-{}", f, p), secs, 0));
        }
        files.push(file(&format!("{}.jsonl", f), entries));
    }
    for keep in [0usize, 1, 5, 17, 30, 50] {
        let plan = prune_history(keep, &files);
        // Rank newest first, drop the rest, then write each file oldest first.
        let mut all: Vec<(usize, TranscriptionEntry)> = Vec::new();
        for (f, file) in files.iter().enumerate() {
            for entry in &file.entries {
                all.push((f, entry.clone()));
            }
        }
        all.sort_by(|a, b| (b.1.timestamp.secs, b.1.timestamp.nanos).cmp(&(a.1.timestamp.secs, a.1.timestamp.nanos)));
        all.truncate(keep);
        assert_eq!(plan.pruned, 51 - keep);
        for (f, rewrite) in plan.rewrites.iter().enumerate() {
            let mut expected: Vec<TranscriptionEntry> =
                all.iter().filter(|(g, _)| *g == f).map(|(_, e)| e.clone()).collect();
            expected.sort_by(|a, b| (a.timestamp.secs, a.timestamp.nanos).cmp(&(b.timestamp.secs, b.timestamp.nanos)));
            assert_eq!(rewrite.entries, expected, "keep {} file {}", keep, f);
        }
    }
}
