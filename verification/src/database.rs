//! The storage side: what becomes of Supabase answers (returned rows,
//! failures), lookups and statistics over stored records, and the answer of
//! the chat-completions API.
use vstd::prelude::*;
use crate::error::Error;
use crate::text::{signed_decimal, signed_decimal_string};

verus! {

/// API endpoint information for tracking.
pub struct ApiEndpointInfo {
    pub url: String,
    pub method: String,
    pub response_size_bytes: Option<usize>,
    pub response_time_ms: Option<u64>,
    pub status_code: Option<u16>,
    pub success: bool,
}

/// The kinds of request the database client makes.
#[derive(PartialEq, Eq, Structural, Clone, Copy, Debug)]
pub enum DbOperation {
    Insert,
    Upsert,
    Query,
    Update,
    Delete,
}

impl DbOperation {
    pub open spec fn verb(self) -> Seq<char> {
        match self {
            DbOperation::Insert => "Insert"@,
            DbOperation::Upsert => "Upsert"@,
            DbOperation::Query => "Query"@,
            DbOperation::Update => "Update"@,
            DbOperation::Delete => "Delete"@,
        }
    }

    pub open spec fn noun(self) -> Seq<char> {
        match self {
            DbOperation::Insert => "insert"@,
            DbOperation::Upsert => "upsert"@,
            DbOperation::Query => "query"@,
            DbOperation::Update => "update"@,
            DbOperation::Delete => "delete"@,
        }
    }

    fn verb_str(&self) -> (v: &'static str)
        ensures
            v@ == self.verb(),
    {
        match self {
            DbOperation::Insert => "Insert",
            DbOperation::Upsert => "Upsert",
            DbOperation::Query => "Query",
            DbOperation::Update => "Update",
            DbOperation::Delete => "Delete",
        }
    }

    fn noun_str(&self) -> (n: &'static str)
        ensures
            n@ == self.noun(),
    {
        match self {
            DbOperation::Insert => "insert",
            DbOperation::Upsert => "upsert",
            DbOperation::Query => "query",
            DbOperation::Update => "update",
            DbOperation::Delete => "delete",
        }
    }
}

/// The error of a request that the database refused, with the text of its
/// answer: `"{Operation} failed: {text}"`.
pub fn request_failure(operation: DbOperation, error_text: &str) -> (err: Error)
    ensures
        err matches Error::DatabaseError(m) && m@ == operation.verb() + " failed: "@ + error_text@,
{
    let mut message = String::from_str(operation.verb_str());
    message.append(" failed: ");
    message.append(error_text);
    Error::DatabaseError(message)
}

/// The row an insert or upsert returns: the first of the returned rows, or
/// an error when there is none.
pub fn first_returned_row<R>(rows: Vec<R>, operation: DbOperation) -> (row: Result<R, Error>)
    ensures
        rows@.len() > 0 ==> row == Ok::<R, Error>(rows@[0]),
        rows@.len() == 0 ==> (row matches Err(Error::DatabaseError(m)) && m@
            == "No record returned after "@ + operation.noun()),
{
    let mut rows = rows;
    if rows.len() == 0 {
        let mut message = String::from_str("No record returned after ");
        message.append(operation.noun_str());
        Err(Error::DatabaseError(message))
    } else {
        Ok(rows.remove(0))
    }
}

/// The error of a storage request that the database refused, with the
/// answer's status line and text: `"Failed to {action}: {status} - {text}"`.
pub fn storage_failure(action: &str, status: &str, error_text: &str) -> (err: Error)
    ensures
        err matches Error::DatabaseError(m) && m@ == "Failed to "@ + action@ + ": "@ + status@
            + " - "@ + error_text@,
{
    let mut message = String::from_str("Failed to ");
    message.append(action);
    message.append(": ");
    message.append(status);
    message.append(" - ");
    message.append(error_text);
    Error::DatabaseError(message)
}

/// The ids that are present among the returned rows' ids, in order.
pub open spec fn present_ids(ids: Seq<Option<i64>>) -> Seq<i64>
    decreases ids.len(),
{
    if ids.len() == 0 {
        seq![]
    } else {
        let rest = present_ids(ids.drop_last());
        match ids.last() {
            Some(id) => rest.push(id),
            None => rest,
        }
    }
}

/// The id of a stored record: that of the first returned row, or an error
/// when there is no first row or it has no integer id.
pub fn first_stored_id(ids: &Vec<Option<i64>>) -> (id: Result<i64, Error>)
    ensures
        ids@.len() > 0 && ids@[0] is Some ==> id == Ok::<i64, Error>(ids@[0]->0),
        !(ids@.len() > 0 && ids@[0] is Some) ==> (id matches Err(Error::DatabaseError(m)) && m@
            == "No ID returned from database"@),
{
    if ids.len() > 0 {
        if let Some(first) = ids[0] {
            return Ok(first);
        }
    }
    Err(Error::DatabaseError(String::from_str("No ID returned from database")))
}

/// The ids of records stored in a batch: the ids present among the returned
/// rows, in order, or an error when the answer is not an array (`None`).
pub fn stored_ids(rows: &Option<Vec<Option<i64>>>) -> (ids: Result<Vec<i64>, Error>)
    ensures
        match rows {
            Some(r) => ids matches Ok(v) && v@ == present_ids(r@),
            None => ids matches Err(Error::DatabaseError(m)) && m@ == "Expected array response"@,
        },
{
    match rows {
        None => Err(Error::DatabaseError(String::from_str("Expected array response"))),
        Some(r) => {
            let mut out: Vec<i64> = Vec::new();
            let mut i: usize = 0;
            while i < r.len()
                invariant
                    0 <= i <= r@.len(),
                    out@ == present_ids(r@.take(i as int)),
                decreases r@.len() - i,
            {
                assert(r@.take(i + 1).drop_last() =~= r@.take(i as int));
                if let Some(id) = r[i] {
                    out.push(id);
                }
                i = i + 1;
            }
            assert(r@.take(r@.len() as int) =~= r@);
            Ok(out)
        },
    }
}

/// Finds the first record with the given id among the records' ids, in the
/// order the records were returned.
pub fn find_record_by_id(ids: &Vec<Option<i64>>, id: i64) -> (found: Option<usize>)
    ensures
        match found {
            Some(i) => i < ids@.len() && ids@[i as int] == Some(id) && forall|j: int|
                0 <= j < i ==> ids@[j] != Some(id),
            None => forall|j: int| 0 <= j < ids@.len() ==> ids@[j] != Some(id),
        },
{
    let mut i: usize = 0;
    while i < ids.len()
        invariant
            0 <= i <= ids@.len(),
            forall|j: int| 0 <= j < i ==> ids@[j] != Some(id),
        decreases ids.len() - i,
    {
        if ids[i] == Some(id) {
            return Some(i);
        }
        i = i + 1;
    }
    None
}

/// The error of a lookup by id that found no record.
pub fn record_not_found(id: i64) -> (err: Error)
    ensures
        err matches Error::ApiError(source, m) && source@ == "Supabase"@ && m@
            == "No fundamentals record found with ID: "@ + signed_decimal(id as int),
{
    let mut message = String::from_str("No fundamentals record found with ID: ");
    let digits = signed_decimal_string(id);
    message.append(digits.as_str());
    Error::ApiError(String::from_str("Supabase"), message)
}

/// The error of a delete by id that the database refused.
pub fn delete_failure(id: i64, error_text: &str) -> (err: Error)
    ensures
        err matches Error::ApiError(source, m) && source@ == "Supabase"@ && m@
            == "Failed to delete fundamentals with ID "@ + signed_decimal(id as int) + ": "@
            + error_text@,
{
    let mut message = String::from_str("Failed to delete fundamentals with ID ");
    let digits = signed_decimal_string(id);
    message.append(digits.as_str());
    message.append(": ");
    message.append(error_text);
    Error::ApiError(String::from_str("Supabase"), message)
}

/// Number of times `k` occurs in `s`.
pub open spec fn occurrences(s: Seq<Seq<char>>, k: Seq<char>) -> nat
    decreases s.len(),
{
    if s.len() == 0 {
        0
    } else {
        occurrences(s.drop_last(), k) + if s.last() == k {
            1nat
        } else {
            0nat
        }
    }
}

pub open spec fn text_views(s: Seq<String>) -> Seq<Seq<char>> {
    s.map_values(|x: String| x@)
}

pub open spec fn entry_views(d: Seq<(String, u64)>) -> Seq<(Seq<char>, nat)> {
    d.map_values(|e: (String, u64)| (e.0@, e.1 as nat))
}

pub open spec fn total_count(d: Seq<(Seq<char>, nat)>) -> nat
    decreases d.len(),
{
    if d.len() == 0 {
        0
    } else {
        total_count(d.drop_last()) + d.last().1
    }
}

/// `d` counts the values of `s`: its keys are distinct, are exactly the
/// values that occur in `s`, and each comes with its number of occurrences.
pub open spec fn is_distribution_of(d: Seq<(Seq<char>, nat)>, s: Seq<Seq<char>>) -> bool {
    &&& forall|a: int, b: int| 0 <= a < b < d.len() ==> d[a].0 != d[b].0
    &&& forall|a: int| 0 <= a < d.len() ==> d[a].1 == occurrences(s, d[a].0) && d[a].1 > 0
    &&& forall|i: int|
        #![trigger s[i]]
        0 <= i < s.len() ==> exists|a: int| #![trigger d[a]] 0 <= a < d.len() && d[a].0 == s[i]
}

proof fn lemma_total_count_update(d: Seq<(Seq<char>, nat)>, j: int, c: nat)
    requires
        0 <= j < d.len(),
    ensures
        total_count(d.update(j, (d[j].0, c))) == total_count(d) - d[j].1 + c,
    decreases d.len(),
{
    if j < d.len() - 1 {
        assert(d.update(j, (d[j].0, c)).drop_last() =~= d.drop_last().update(j, (d[j].0, c)));
        lemma_total_count_update(d.drop_last(), j, c);
    } else {
        assert(d.update(j, (d[j].0, c)).drop_last() =~= d.drop_last());
    }
}

proof fn lemma_occurrences_absent(s: Seq<Seq<char>>, k: Seq<char>)
    requires
        forall|i: int| 0 <= i < s.len() ==> s[i] != k,
    ensures
        occurrences(s, k) == 0,
    decreases s.len(),
{
    if s.len() > 0 {
        lemma_occurrences_absent(s.drop_last(), k);
    }
}

/// Counts how often each value occurs (how many records carry each trading
/// signal, say): each distinct value once, with its number of occurrences.
/// The counts add up to the number of values.
pub fn value_distribution(values: &Vec<String>) -> (dist: Vec<(String, u64)>)
    ensures
        is_distribution_of(entry_views(dist@), text_views(values@)),
        total_count(entry_views(dist@)) == values@.len(),
{
    let ghost vs = text_views(values@);
    let mut dist: Vec<(String, u64)> = Vec::new();
    let mut i: usize = 0;
    while i < values.len()
        invariant
            vs == text_views(values@),
            0 <= i <= values@.len(),
            is_distribution_of(entry_views(dist@), vs.take(i as int)),
            total_count(entry_views(dist@)) == i,
            forall|a: int| 0 <= a < dist@.len() ==> dist@[a].1 <= i,
        decreases values.len() - i,
    {
        let ghost before = vs.take(i as int);
        let ghost after = vs.take(i + 1);
        assert(after.drop_last() =~= before);
        let ghost old_views = entry_views(dist@);
        let v = &values[i];
        let mut j: usize = 0;
        let mut found = false;
        while j < dist.len()
            invariant_except_break
                !found,
            invariant
                0 <= j <= dist@.len(),
                forall|a: int| 0 <= a < j ==> dist@[a].0@ != v@,
            ensures
                found ==> j < dist@.len() && dist@[j as int].0@ == v@,
                !found ==> j == dist@.len(),
            decreases dist.len() - j,
        {
            if dist[j].0 == *v {
                found = true;
                break;
            }
            j = j + 1;
        }
        proof {
            assert forall|a: int| 0 <= a < old_views.len() && old_views[a].0 != v@ implies
                occurrences(after, old_views[a].0) == occurrences(before, old_views[a].0) by {}
        }
        if found {
            let c = dist[j].1;
            let key = dist[j].0.clone();
            dist.set(j, (key, c + 1));
            proof {
                assert(entry_views(dist@) =~= old_views.update(j as int, (old_views[j as int].0, (c + 1) as nat)));
                lemma_total_count_update(old_views, j as int, (c + 1) as nat);
                let nv = entry_views(dist@);
                assert forall|x: int| #![trigger after[x]] 0 <= x < after.len() implies exists|a: int|
                    #![trigger nv[a]]
                    0 <= a < nv.len() && nv[a].0 == after[x] by {
                    if x < before.len() {
                        let a = choose|a: int|
                            #![trigger old_views[a]]
                            0 <= a < old_views.len() && old_views[a].0 == before[x];
                        assert(nv[a].0 == after[x]);
                    } else {
                        assert(nv[j as int].0 == after[x]);
                    }
                }
            }
        } else {
            dist.push((v.clone(), 1));
            proof {
                assert(entry_views(dist@) =~= old_views.push((v@, 1nat)));
                assert(entry_views(dist@).drop_last() =~= old_views);
                assert forall|x: int| #![trigger before[x]] 0 <= x < before.len() implies before[x] != v@ by {
                    let a = choose|a: int|
                            #![trigger old_views[a]]
                            0 <= a < old_views.len() && old_views[a].0 == before[x];
                    assert(old_views[a].0 != v@);
                }
                lemma_occurrences_absent(before, v@);
                let nv = entry_views(dist@);
                assert forall|x: int| #![trigger after[x]] 0 <= x < after.len() implies exists|a: int|
                    #![trigger nv[a]]
                    0 <= a < nv.len() && nv[a].0 == after[x] by {
                    if x < before.len() {
                        let a = choose|a: int|
                            #![trigger old_views[a]]
                            0 <= a < old_views.len() && old_views[a].0 == before[x];
                        assert(nv[a].0 == after[x]);
                    } else {
                        assert(nv[nv.len() - 1].0 == after[x]);
                    }
                }
            }
        }
        i = i + 1;
    }
    assert(vs.take(values.len() as int) =~= vs);
    dist
}

proof fn lemma_total_at_least_len(d: Seq<(Seq<char>, nat)>)
    requires
        forall|a: int| 0 <= a < d.len() ==> (#[trigger] d[a]).1 > 0,
    ensures
        total_count(d) >= d.len(),
    decreases d.len(),
{
    if d.len() > 0 {
        assert forall|a: int| 0 <= a < d.drop_last().len() implies (#[trigger] d.drop_last()[a]).1
            > 0 by {
            assert(d.drop_last()[a] == d[a]);
        }
        lemma_total_at_least_len(d.drop_last());
    }
}

/// There are never more distinct values than values: the statistics'
/// number of distinct symbols is at most the number of records.
pub proof fn law_distinct_values_bounded(d: Seq<(Seq<char>, nat)>, s: Seq<Seq<char>>)
    requires
        is_distribution_of(d, s),
        total_count(d) == s.len(),
    ensures
        d.len() <= s.len(),
{
    lemma_total_at_least_len(d);
}

/// The answer of the chat-completions API: the content of its first choice,
/// or an error when it has none.
pub fn first_choice_content(contents: Vec<String>) -> (answer: Result<String, Error>)
    ensures
        contents@.len() > 0 ==> (answer matches Ok(c) && c@ == contents@[0]@),
        contents@.len() == 0 ==> (answer matches Err(Error::ApiError(source, m)) && source@
            == "ChatGPT"@ && m@ == "No response choices returned from ChatGPT API"@),
{
    let mut contents = contents;
    if contents.len() == 0 {
        Err(
            Error::ApiError(
                String::from_str("ChatGPT"),
                String::from_str("No response choices returned from ChatGPT API"),
            ),
        )
    } else {
        Ok(contents.remove(0))
    }
}

} // verus!
