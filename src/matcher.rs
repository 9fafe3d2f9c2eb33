//! Finds the remote record that a desired record stands for.
use vstd::prelude::*;
use vstd::string::StringExecFns;

use crate::typings::{records_view, same_key, DNSRecordSpec, Error, RecordView};

verus! {

/// `remote[i]` shares the key of `desired`, and no record before it does.
pub open spec fn is_first_match(desired: RecordView, remote: Seq<RecordView>, i: int) -> bool {
    &&& 0 <= i < remote.len()
    &&& same_key(remote[i], desired)
    &&& forall|j: int| 0 <= j < i ==> !same_key(#[trigger] remote[j], desired)
}

/// Some remote record shares the key of `desired`.
pub open spec fn has_match(desired: RecordView, remote: Seq<RecordView>) -> bool {
    exists|i: int| 0 <= i < remote.len() && same_key(#[trigger] remote[i], desired)
}

/// The position of the first remote record that shares the key of `desired`.
pub open spec fn first_match(desired: RecordView, remote: Seq<RecordView>) -> Option<int> {
    if exists|i: int| is_first_match(desired, remote, i) {
        Some(choose|i: int| is_first_match(desired, remote, i))
    } else {
        None
    }
}

/// A first match is the one that [`first_match`] names.
pub proof fn lemma_first_match_unique(desired: RecordView, remote: Seq<RecordView>, i: int)
    requires
        is_first_match(desired, remote, i),
    ensures
        first_match(desired, remote) == Some(i),
{
    let j = choose|j: int| is_first_match(desired, remote, j);
    assert(is_first_match(desired, remote, j));
    if j < i {
        assert(!same_key(remote[j], desired));
    } else if i < j {
        assert(!same_key(remote[i], desired));
    }
}

/// Without any record of the same key there is no first match.
pub proof fn lemma_no_match(desired: RecordView, remote: Seq<RecordView>)
    requires
        !has_match(desired, remote),
    ensures
        first_match(desired, remote) is None,
{
    assert forall|i: int| !is_first_match(desired, remote, i) by {
        if is_first_match(desired, remote, i) {
            assert(same_key(remote[i], desired));
        }
    }
}

/// The position in `existing` of the first record whose name and type are
/// those of `desired`, or `None` when there is none.
pub fn find_match(desired: &DNSRecordSpec, existing: &Vec<DNSRecordSpec>) -> (r: Option<usize>)
    ensures
        match r {
            Some(i) => first_match(desired@, records_view(existing@)) == Some(i as int),
            None => !has_match(desired@, records_view(existing@)),
        },
        r is None <==> first_match(desired@, records_view(existing@)) is None,
{
    let ghost remote = records_view(existing@);
    let mut i: usize = 0;
    while i < existing.len()
        invariant
            0 <= i <= existing.len(),
            remote == records_view(existing@),
            forall|j: int| 0 <= j < i ==> !same_key(#[trigger] remote[j], desired@),
        decreases existing.len() - i,
    {
        if existing[i].same_key_as(desired) {
            proof {
                lemma_first_match_unique(desired@, remote, i as int);
            }
            return Some(i);
        }
        i = i + 1;
    }
    proof {
        lemma_no_match(desired@, remote);
    }
    None
}

/// No two records share name and type.
pub open spec fn keys_distinct(records: Seq<RecordView>) -> bool {
    forall|i: int, j: int| 0 <= i < j < records.len() ==> !same_key(#[trigger] records[i], #[trigger] records[j])
}

/// Rejects a desired state in which two records share name and type, which
/// would have the later silently overwrite the earlier within one cycle.
pub fn check_distinct_keys(desired: &Vec<DNSRecordSpec>) -> (r: Result<(), Error>)
    ensures
        r is Ok <==> keys_distinct(records_view(desired@)),
        r matches Err(e) ==> e is ConfigurationError,
{
    let ghost s = records_view(desired@);
    let n = desired.len();
    let mut i: usize = 0;
    while i < n
        invariant
            0 <= i <= n,
            n == desired.len(),
            s == records_view(desired@),
            forall|a: int, b: int| 0 <= a < i && a < b < n ==> !same_key(#[trigger] s[a], #[trigger] s[b]),
        decreases n - i,
    {
        let mut j: usize = i + 1;
        while j < n
            invariant
                i < n,
                i + 1 <= j <= n,
                n == desired.len(),
                s == records_view(desired@),
                forall|a: int, b: int| 0 <= a < i && a < b < n ==> !same_key(#[trigger] s[a], #[trigger] s[b]),
                forall|b: int| i < b < j ==> !same_key(s[i as int], #[trigger] s[b]),
            decreases n - j,
        {
            if desired[i].same_key_as(&desired[j]) {
                assert(same_key(s[i as int], s[j as int]));
                return Err(Error::ConfigurationError(
                    String::from_str("two desired records share name and type"),
                ));
            }
            j = j + 1;
        }
        i = i + 1;
    }
    Ok(())
}

} // verus!
