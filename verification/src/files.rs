//! The startup file list and its validation.
//!
//! The navigator works on an ordered, non-empty list of files, each of which
//! must exist when the tool starts. [`build_list`] makes that decision: given
//! the entries and, for each, whether its resolved path is present on disk,
//! it either accepts the list unchanged or reports exactly why it is
//! rejected — empty, or naming the missing entries in order.

use vstd::prelude::*;

verus! {

/// One entry of the file list: the name the user gave and the resolved
/// absolute path. Immutable once constructed.
#[derive(Debug)]
pub struct FileLoc {
    /// The path-like string as the user wrote it.
    pub name: String,
    /// The absolute path it resolved to at startup.
    pub path: String,
}

/// Why a startup file list was rejected.
#[derive(Debug)]
pub enum ListError {
    /// No files were given at all.
    Empty,
    /// Some resolved paths do not exist; the names of those entries, in list
    /// order.
    Missing(Vec<String>),
}

/// The names whose entries are not present, in list order: `names[i]` is kept
/// exactly when `present[i]` is false.
pub open spec fn missing_of(names: Seq<Seq<char>>, present: Seq<bool>) -> Seq<Seq<char>>
    recommends
        names.len() == present.len(),
    decreases names.len(),
{
    if names.len() == 0 {
        Seq::empty()
    } else {
        missing_of(names.drop_last(), present.drop_last()) + (if present.last() {
            Seq::empty()
        } else {
            seq![names.last()]
        })
    }
}

/// No entry is missing exactly when every entry is present.
pub proof fn lemma_missing_empty_iff_all_present(names: Seq<Seq<char>>, present: Seq<bool>)
    requires
        names.len() == present.len(),
    ensures
        missing_of(names, present).len() == 0 <==> (forall|i: int|
            0 <= i < present.len() ==> present[i]),
    decreases names.len(),
{
    if names.len() == 0 {
    } else {
        lemma_missing_empty_iff_all_present(names.drop_last(), present.drop_last());
        assert(forall|i: int| 0 <= i < present.len() - 1 ==> present.drop_last()[i] == present[i]);
        if missing_of(names, present).len() == 0 {
            assert(present.last());
        }
    }
}

/// Validates the startup file list. Accepts a non-empty list whose entries
/// all exist, unchanged; rejects an empty list, and a list with absent
/// entries, naming exactly the missing ones in order.
pub fn build_list(entries: Vec<FileLoc>, present: &Vec<bool>) -> (r: Result<Vec<FileLoc>, ListError>)
    requires
        entries@.len() == present@.len(),
    ensures
        match r {
            Ok(list) => {
                &&& list@ == entries@
                &&& list@.len() > 0
                &&& forall|i: int| 0 <= i < present@.len() ==> present@[i]
            },
            Err(ListError::Empty) => entries@.len() == 0,
            Err(ListError::Missing(miss)) => {
                &&& miss@.map_values(|s: String| s@) =~= missing_of(
                    entries@.map_values(|e: FileLoc| e.name@),
                    present@,
                )
                &&& miss@.len() > 0
                &&& entries@.len() > 0
            },
        },
{
    if entries.len() == 0 {
        return Err(ListError::Empty);
    }
    let ghost names: Seq<Seq<char>> = entries@.map_values(|e: FileLoc| e.name@);
    let mut miss: Vec<String> = Vec::new();
    let n = entries.len();
    for i in 0..n
        invariant
            n == entries@.len(),
            entries@.len() == present@.len(),
            names == entries@.map_values(|e: FileLoc| e.name@),
            miss@.map_values(|s: String| s@) =~= missing_of(
                names.take(i as int),
                present@.take(i as int),
            ),
    {
        proof {
            assert(names.take(i + 1).drop_last() =~= names.take(i as int));
            assert(present@.take(i + 1).drop_last() =~= present@.take(i as int));
            assert(names.take(i + 1).last() == names[i as int]);
            assert(names[i as int] == entries@[i as int].name@);
        }
        if !present[i] {
            let name = entries[i].name.clone();
            miss.push(name);
        }
    }
    proof {
        assert(names.take(n as int) =~= names);
        assert(present@.take(n as int) =~= present@);
    }
    if miss.len() == 0 {
        proof {
            lemma_missing_empty_iff_all_present(names, present@);
        }
        Ok(entries)
    } else {
        Err(ListError::Missing(miss))
    }
}

} // verus!
