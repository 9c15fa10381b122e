//! Listing the files of the history directory: which names are history
//! files, and in which order they are read.

use vstd::prelude::*;
use vstd::string::*;
use vstd::utf8::*;
use crate::text::str_equal;

verus! {

/// Whether `a` comes before `b` when the two are compared byte by byte from
/// the index `from` on, given that they agree before it. A proper prefix
/// comes before what it is a prefix of.
pub open spec fn bytes_less_from(a: Seq<u8>, b: Seq<u8>, from: int) -> bool
    decreases a.len() - from,
{
    if from < 0 || from >= b.len() {
        false
    } else if from >= a.len() {
        true
    } else if a[from] != b[from] {
        a[from] < b[from]
    } else {
        bytes_less_from(a, b, from + 1)
    }
}

/// Whether the name `a` sorts before the name `b`: names are compared by
/// their UTF-8 bytes.
pub open spec fn name_less(a: Seq<char>, b: Seq<char>) -> bool {
    bytes_less_from(encode_utf8(a), encode_utf8(b), 0)
}

/// Whether the file called `name` is a history file: it has the extension
/// `jsonl`, so its name ends with `.jsonl` and has something before that.
pub open spec fn is_history_file(name: Seq<char>) -> bool {
    name.len() > 6 && name.subrange(name.len() - 6, name.len() as int) == ".jsonl"@
}

/// The characters of each name in `names`, in order.
pub open spec fn name_views(names: Seq<String>) -> Seq<Seq<char>> {
    names.map_values(|name: String| name@)
}

/// Whether `names` are sorted from the last to the first.
pub open spec fn sorted_descending(names: Seq<Seq<char>>) -> bool {
    forall|i: int, j: int|
        0 <= i < j < names.len() ==> !name_less(#[trigger] names[i], #[trigger] names[j])
}

/// The order of bytes carries over from two names to a third.
proof fn lemma_bytes_less_transitive(a: Seq<u8>, b: Seq<u8>, c: Seq<u8>, from: int)
    requires
        0 <= from,
        bytes_less_from(a, b, from),
        bytes_less_from(b, c, from),
    ensures
        bytes_less_from(a, c, from),
    decreases b.len() - from,
{
    if from < a.len() && from < b.len() && from < c.len() && a[from] == b[from] && b[from]
        == c[from] {
        lemma_bytes_less_transitive(a, b, c, from + 1);
    }
}

/// Nothing comes before itself.
proof fn lemma_bytes_less_irreflexive(a: Seq<u8>, from: int)
    requires
        0 <= from,
    ensures
        !bytes_less_from(a, a, from),
    decreases a.len() - from,
{
    if from < a.len() {
        lemma_bytes_less_irreflexive(a, from + 1);
    }
}

/// Whether the name `a` sorts before the name `b`.
pub fn sorts_before(a: &str, b: &str) -> (less: bool)
    ensures
        less == name_less(a@, b@),
{
    let x = a.as_bytes();
    let y = b.as_bytes();
    let mut i: usize = 0;
    loop
        invariant
            i <= x@.len(),
            i <= y@.len(),
            x@ == encode_utf8(a@),
            y@ == encode_utf8(b@),
            bytes_less_from(x@, y@, 0) == bytes_less_from(x@, y@, i as int),
        decreases x@.len() - i,
    {
        if i >= y.len() {
            return false;
        }
        if i >= x.len() {
            return true;
        }
        if x[i] != y[i] {
            return x[i] < y[i];
        }
        i = i + 1;
    }
}

/// Tells whether a file of the history directory is a history file.
pub fn has_history_extension(name: &str) -> (is: bool)
    ensures
        is == is_history_file(name@),
{
    let n: usize = name.unicode_len();
    if n <= 6 {
        return false;
    }
    str_equal(name.substring_char(n - 6, n), ".jsonl")
}

/// Lists the history files among the files called `names`, from the last
/// name to the first. The names hold year and month, so the newest file
/// comes first.
pub fn list_history_files(names: &Vec<String>) -> (files: Vec<String>)
    ensures
        sorted_descending(name_views(files@)),
        name_views(files@).to_multiset() == name_views(names@).filter(
            |name: Seq<char>| is_history_file(name),
        ).to_multiset(),
{
    let ghost wanted = |name: Seq<char>| is_history_file(name);
    let mut files: Vec<String> = Vec::new();
    let mut i: usize = 0;
    proof {
        assert(name_views(names@).take(0) =~= Seq::<Seq<char>>::empty());
        assert(name_views(names@).take(0).filter(wanted) =~= Seq::<Seq<char>>::empty()) by {
            reveal(Seq::filter);
        }
        assert(name_views(files@) =~= Seq::<Seq<char>>::empty());
    }
    while i < names.len()
        invariant
            i <= names.len(),
            wanted == |name: Seq<char>| is_history_file(name),
            sorted_descending(name_views(files@)),
            name_views(files@).to_multiset() == name_views(names@).take(i as int).filter(
                wanted,
            ).to_multiset(),
        decreases names.len() - i,
    {
        let name = &names[i];
        proof {
            let earlier = name_views(names@).take(i as int);
            assert(name_views(names@).take(i + 1) =~= earlier.push(name@));
            earlier.lemma_filter_push(name@, wanted);
        }
        if has_history_extension(name.as_str()) {
            // Find the first file that sorts before this one.
            let mut at: usize = 0;
            while at < files.len() && !sorts_before(files[at].as_str(), name.as_str())
                invariant
                    at <= files.len(),
                    forall|k: int|
                        0 <= k < at ==> !name_less(#[trigger] name_views(files@)[k], name@),
                decreases files.len() - at,
            {
                assert(name_views(files@)[at as int] == files@[at as int]@);
                at = at + 1;
            }
            let ghost before = name_views(files@);
            proof {
                if at < files.len() {
                    assert(before[at as int] == files@[at as int]@);
                    assert(name_less(before[at as int], name@));
                }
            }
            files.insert(at, name.clone());
            proof {
                let after = name_views(files@);
                assert(after =~= before.insert(at as int, name@));
                vstd::seq_lib::to_multiset_insert(before, at as int, name@);
                let earlier = name_views(names@).take(i as int).filter(wanted);
                vstd::seq_lib::to_multiset_build(earlier, name@);
                assert forall|x: int, y: int| 0 <= x < y < after.len() implies !name_less(
                    #[trigger] after[x],
                    #[trigger] after[y],
                ) by {
                    if y == at {
                        assert(after[x] == before[x]);
                    } else if x == at {
                        // What follows the new name does not sort after the
                        // file that was found, which sorts before the name.
                        assert(after[y] == before[y - 1]);
                        assert(name_less(before[at as int], name@));
                        if y - 1 > at {
                            assert(!name_less(before[at as int], before[y - 1]));
                        }
                        if name_less(name@, before[y - 1]) {
                            lemma_bytes_less_transitive(
                                encode_utf8(before[at as int]),
                                encode_utf8(name@),
                                encode_utf8(before[y - 1]),
                                0,
                            );
                            lemma_bytes_less_irreflexive(encode_utf8(before[at as int]), 0);
                        }
                    } else {
                        let bx = if x < at { x } else { x - 1 };
                        let by = if y < at { y } else { y - 1 };
                        assert(after[x] == before[bx]);
                        assert(after[y] == before[by]);
                    }
                }
            }
        }
        i = i + 1;
    }
    proof {
        assert(name_views(names@).take(names@.len() as int) =~= name_views(names@));
    }
    files
}

} // verus!
