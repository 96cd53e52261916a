//! Semantic search across embedded datasets: request validation, how many
//! result batches a document search fetches, and the per-dataset errors.
use vstd::prelude::*;
use crate::errors::ApiError;
use crate::text::{
    append_chars, append_str, chars_to_string, contains_seq, contains_str, decimal_i64_chars,
    decimal_int, str_to_chars, trim, trim_exec,
};

verus! {

/// Validates a search request: at least one embedded dataset must be
/// selected, then the query must not be blank.
pub fn validate_search_request(dataset_count: usize, query: &str) -> (r: Result<(), ApiError>)
    ensures
        dataset_count == 0 ==> (r matches Err(ApiError::BadRequest(m)) && m@
            == "At least one embedded dataset must be selected"@),
        dataset_count > 0 && trim(query@).len() == 0 ==> (r matches Err(ApiError::BadRequest(m))
            && m@ == "Query cannot be empty"@),
        dataset_count > 0 && trim(query@).len() > 0 ==> r is Ok,
{
    if dataset_count == 0 {
        return Err(ApiError::BadRequest("At least one embedded dataset must be selected".to_string()));
    }
    let q = str_to_chars(query);
    let t = trim_exec(q.as_slice());
    if t.len() == 0 {
        return Err(ApiError::BadRequest("Query cannot be empty".to_string()));
    }
    Ok(())
}

/// The error reported for a dataset whose vector collection could not be
/// searched: a collection that does not exist yet means the dataset has not
/// been processed; any other failure is reported as it is.
pub open spec fn search_failure_text(error: Seq<char>) -> Seq<char> {
    if contains_seq(error, "doesn't exist"@) || contains_seq(error, "not found"@) || contains_seq(
        error,
        "No collection"@,
    ) {
        "This embedded dataset has not been processed yet. Please wait for the embedding process to complete."@
    } else {
        "Search failed: "@ + error
    }
}

/// Builds the error reported for a failed collection search.
pub fn search_failure_message(error: &str) -> (r: String)
    ensures
        r@ == search_failure_text(error@),
{
    let e = str_to_chars(error);
    if contains_str(e.as_slice(), "doesn't exist") || contains_str(e.as_slice(), "not found")
        || contains_str(e.as_slice(), "No collection") {
        "This embedded dataset has not been processed yet. Please wait for the embedding process to complete.".to_string()
    } else {
        let mut out: Vec<char> = Vec::new();
        append_str(&mut out, "Search failed: ");
        append_chars(&mut out, e.as_slice());
        chars_to_string(out.as_slice())
    }
}

/// The title shown for a requested dataset that could not be found.
pub fn missing_dataset_title(embedded_dataset_id: i32) -> (r: String)
    ensures
        r@ == "Embedded Dataset "@ + decimal_int(embedded_dataset_id as int),
{
    let mut out: Vec<char> = Vec::new();
    append_str(&mut out, "Embedded Dataset ");
    append_chars(&mut out, decimal_i64_chars(embedded_dataset_id as i64).as_slice());
    chars_to_string(out.as_slice())
}

/// The number of chunks fetched per batch in document mode.
pub const DOCUMENT_BATCH_SIZE: u64 = 200;

/// A document search stops before fetching at this offset (50 batches).
pub const MAX_DOCUMENT_OFFSET: u64 = 10000;

/// Progress of a document-mode search, which fetches chunk batches until
/// enough distinct documents were seen.
pub struct DocumentSearch {
    target: usize,
    offset: u64,
    seen: Vec<i64>,
}

impl DocumentSearch {
    /// The number of distinct documents wanted.
    pub closed spec fn target(&self) -> nat {
        self.target as nat
    }

    /// The offset of the next batch.
    pub closed spec fn offset(&self) -> nat {
        self.offset as nat
    }

    /// The distinct documents seen so far.
    pub closed spec fn seen(&self) -> Set<i64> {
        self.seen@.to_set()
    }

    /// The number of distinct documents seen so far.
    pub closed spec fn seen_count(&self) -> nat {
        self.seen@.len()
    }

    /// The seen documents are held without repetition, and the offset is a
    /// whole number of batches below the limit.
    pub closed spec fn wf(&self) -> bool {
        &&& self.seen@.no_duplicates()
        &&& self.offset < MAX_DOCUMENT_OFFSET
        &&& self.offset % DOCUMENT_BATCH_SIZE == 0
    }

    /// The count of distinct documents is the size of the set seen.
    pub proof fn lemma_seen_count(&self)
        requires
            self.wf(),
        ensures
            self.seen_count() == self.seen().len(),
    {
        self.seen@.unique_seq_to_set();
    }

    /// A search for `limit` documents, starting at offset 0.
    pub fn new(limit: u64) -> (r: Self)
        ensures
            r.wf(),
            r.target() == limit as usize,
            r.offset() == 0,
            r.seen() == Set::<i64>::empty(),
            r.seen_count() == 0,
    {
        #[verifier::truncate]
        let target = limit as usize;
        let r = DocumentSearch { target, offset: 0, seen: Vec::new() };
        assert(r.seen@.to_set() =~= Set::<i64>::empty());
        r
    }

    /// The offset of the next batch to fetch.
    pub fn next_offset(&self) -> (r: u64)
        ensures
            r == self.offset(),
    {
        self.offset
    }

    fn record(&mut self, id: i64)
        requires
            old(self).seen@.no_duplicates(),
        ensures
            final(self).seen@.no_duplicates(),
            final(self).seen() == old(self).seen().insert(id),
            final(self).target == old(self).target,
            final(self).offset == old(self).offset,
    {
        let mut k: usize = 0;
        while k < self.seen.len()
            invariant
                k <= self.seen.len(),
                self.seen@ == old(self).seen@,
                self.seen@.no_duplicates(),
                self.target == old(self).target,
                self.offset == old(self).offset,
                forall|j: int| 0 <= j < k ==> self.seen@[j] != id,
            decreases self.seen.len() - k,
        {
            if self.seen[k] == id {
                assert(self.seen@.to_set().insert(id) =~= self.seen@.to_set());
                return;
            }
            k = k + 1;
        }
        let ghost before = self.seen@;
        self.seen.push(id);
        proof {
            before.lemma_push_to_set_commute(id);
            assert(!before.contains(id));
        }
    }

    /// Takes in a fetched batch, given by the document each chunk belongs to
    /// (`None` for a chunk without one); returns whether another batch is
    /// fetched. The search ends on an empty batch, once enough distinct
    /// documents were seen, or when the next offset would reach the limit.
    pub fn on_batch(&mut self, item_ids: &[Option<i64>]) -> (more: bool)
        requires
            old(self).wf(),
        ensures
            final(self).wf(),
            final(self).target() == old(self).target(),
            final(self).seen() == old(self).seen().union(
                Set::new(|id: i64| exists|j: int| 0 <= j < item_ids@.len() && item_ids@[j] == Some(id)),
            ),
            more <==> (item_ids@.len() > 0 && final(self).seen_count() < final(self).target()
                && old(self).offset() + DOCUMENT_BATCH_SIZE < MAX_DOCUMENT_OFFSET),
            more ==> final(self).offset() == old(self).offset() + DOCUMENT_BATCH_SIZE,
            !more ==> final(self).offset() == old(self).offset(),
    {
        let ghost start = self.seen();
        let mut i: usize = 0;
        while i < item_ids.len()
            invariant
                i <= item_ids.len(),
                self.seen@.no_duplicates(),
                self.target == old(self).target,
                self.offset == old(self).offset,
                self.seen() == start.union(
                    Set::new(|id: i64| exists|j: int| 0 <= j < i && item_ids@[j] == Some(id)),
                ),
            decreases item_ids.len() - i,
        {
            let ghost before = self.seen();
            match item_ids[i] {
                Some(id) => {
                    self.record(id);
                },
                None => {},
            }
            assert(self.seen() =~= start.union(
                Set::new(|id: i64| exists|j: int| 0 <= j < i + 1 && item_ids@[j] == Some(id)),
            )) by {
                assert forall|x: i64| #[trigger] self.seen().contains(x) == start.union(
                    Set::new(|id: i64| exists|j: int| 0 <= j < i + 1 && item_ids@[j] == Some(id)),
                ).contains(x) by {
                    if exists|j: int| 0 <= j < i + 1 && item_ids@[j] == Some(x) {
                        let j = choose|j: int| 0 <= j < i + 1 && item_ids@[j] == Some(x);
                        if j == i as int {
                        } else {
                            assert(before.contains(x));
                        }
                    }
                }
            }
            i = i + 1;
        }
        if item_ids.len() == 0 {
            return false;
        }
        if self.seen.len() >= self.target {
            return false;
        }
        if self.offset + DOCUMENT_BATCH_SIZE >= MAX_DOCUMENT_OFFSET {
            return false;
        }
        self.offset = self.offset + DOCUMENT_BATCH_SIZE;
        true
    }
}

} // verus!
