//! Retrieval-augmented generation: the context built from retrieved
//! document chunks, and the replacement of "Chunk N" references in LLM
//! answers by document titles.
use vstd::prelude::*;
use crate::pattern::{
    compile_pattern, pattern_segments, regex_compiles, regex_segments, segment_view, segments_text,
    RegexSegment,
};
use crate::prompt_injection::{document_chunk, format_document_chunk};
use crate::text::{append_chars, append_str, chars_to_string, decimal, decimal_chars, parse_usize, parse_usize_spec, str_to_chars};

verus! {

/// A document chunk retrieved for a query. The similarity score is held as
/// displayed, with two decimals.
pub struct RetrievedDocument {
    pub document_id: Option<String>,
    pub text: String,
    pub similarity_score_text: String,
    pub item_title: Option<String>,
}

/// The context given when nothing was retrieved.
pub const NO_DOCUMENTS_CONTEXT: &'static str = "No relevant documents found.";

/// The instructions that open a context with retrieved chunks.
pub const CONTEXT_HEADER: &'static str = "Below are the relevant document chunks retrieved for this query. Reference them by their chunk number (e.g., \"According to Chunk 1\" or \"As stated in Chunk 2\") when answering.\n\n";

/// `title` when present, `default` otherwise.
pub open spec fn title_or(title: Option<String>, default: Seq<char>) -> Seq<char> {
    match title {
        Some(t) => t@,
        None => default,
    }
}

/// The first `n` documents as numbered, delimited chunks, each followed by
/// a blank line.
pub open spec fn context_chunks(docs: Seq<RetrievedDocument>, n: nat) -> Seq<char>
    decreases n,
{
    if n == 0 {
        seq![]
    } else {
        let d = docs[n - 1];
        context_chunks(docs, (n - 1) as nat) + document_chunk(
            n,
            title_or(d.item_title, "unknown"@),
            d.similarity_score_text@,
            d.text@,
        ) + "\n\n"@
    }
}

/// The LLM context for the retrieved documents.
pub open spec fn context_spec(docs: Seq<RetrievedDocument>) -> Seq<char> {
    if docs.len() == 0 {
        NO_DOCUMENTS_CONTEXT@
    } else {
        CONTEXT_HEADER@ + context_chunks(docs, docs.len())
    }
}

/// Builds the LLM context: the header, then each document as a numbered,
/// delimited chunk (numbered from 1, titled "unknown" when it has no title).
pub fn build_context(documents: &[RetrievedDocument]) -> (r: String)
    ensures
        r@ == context_spec(documents@),
{
    if documents.len() == 0 {
        return NO_DOCUMENTS_CONTEXT.to_string();
    }
    let mut out: Vec<char> = Vec::new();
    append_str(&mut out, CONTEXT_HEADER);
    let mut i: usize = 0;
    while i < documents.len()
        invariant
            i <= documents.len(),
            documents.len() > 0,
            out@ == CONTEXT_HEADER@ + context_chunks(documents@, i as nat),
        decreases documents.len() - i,
    {
        let doc = &documents[i];
        let title: &str = match &doc.item_title {
            Some(t) => t.as_str(),
            None => "unknown",
        };
        let chunk = format_document_chunk(i + 1, title, doc.similarity_score_text.as_str(), doc.text.as_str());
        let ghost before = out@;
        append_str(&mut out, chunk.as_str());
        append_str(&mut out, "\n\n");
        assert(out@ =~= before + (document_chunk(
            (i + 1) as nat,
            title_or(doc.item_title, "unknown"@),
            doc.similarity_score_text@,
            doc.text@,
        ) + "\n\n"@));
        i = i + 1;
    }
    chars_to_string(out.as_slice())
}

/// The pattern of a chunk reference: "Chunk " and a number.
pub const CHUNK_REFERENCE_PATTERN: &'static str = r"Chunk (\d+)";

/// What chunk number `n` is replaced by: the title of the `n`-th document
/// ("Unknown Source" when it has none), or "Chunk {n}" when there is no
/// such document.
pub open spec fn chunk_replacement(docs: Seq<RetrievedDocument>, n: nat) -> Seq<char> {
    if 1 <= n <= docs.len() {
        title_or(docs[n - 1].item_title, "Unknown Source"@)
    } else {
        "Chunk "@ + decimal(n)
    }
}

/// The text that replaces a segment: a chunk reference whose number parses
/// is replaced; everything else is kept.
pub open spec fn replaced_segment(seg: (Seq<char>, bool, Option<Seq<char>>), docs: Seq<RetrievedDocument>) -> Seq<
    char,
> {
    if seg.1 && seg.2 is Some && parse_usize_spec(seg.2->0) is Some {
        chunk_replacement(docs, parse_usize_spec(seg.2->0)->0)
    } else {
        seg.0
    }
}

/// The segments with every chunk reference replaced.
pub open spec fn replaced_text(segs: Seq<(Seq<char>, bool, Option<Seq<char>>)>, docs: Seq<RetrievedDocument>) -> Seq<
    char,
>
    decreases segs.len(),
{
    if segs.len() == 0 {
        seq![]
    } else {
        replaced_text(segs.drop_last(), docs) + replaced_segment(segs.last(), docs)
    }
}

/// Text without chunk references is left as it is.
pub proof fn lemma_replaced_text_without_references(
    segs: Seq<(Seq<char>, bool, Option<Seq<char>>)>,
    docs: Seq<RetrievedDocument>,
)
    requires
        forall|k: int| 0 <= k < segs.len() ==> !(#[trigger] segs[k]).1,
    ensures
        replaced_text(segs, docs) == segments_text(segs),
    decreases segs.len(),
{
    if segs.len() > 0 {
        lemma_replaced_text_without_references(segs.drop_last(), docs);
        assert(!segs[segs.len() - 1].1);
    }
}

fn title_for_chunk(documents: &[RetrievedDocument], n: usize) -> (r: Vec<char>)
    ensures
        r@ == chunk_replacement(documents@, n as nat),
{
    if 1 <= n && n <= documents.len() {
        match &documents[n - 1].item_title {
            Some(t) => str_to_chars(t.as_str()),
            None => str_to_chars("Unknown Source"),
        }
    } else {
        let mut v: Vec<char> = Vec::new();
        append_str(&mut v, "Chunk ");
        append_chars(&mut v, decimal_chars(n as u64).as_slice());
        v
    }
}

/// An answer with its "Chunk N" references replaced by document titles.
pub open spec fn chunk_references_replaced(content: Seq<char>, docs: Seq<RetrievedDocument>) -> Seq<char> {
    if regex_compiles(CHUNK_REFERENCE_PATTERN@) {
        replaced_text(regex_segments(CHUNK_REFERENCE_PATTERN@, content), docs)
    } else {
        content
    }
}

/// Replaces "Chunk N" references in an LLM answer with the titles of the
/// referenced documents (chunk N is the N-th document).
pub fn replace_chunk_references(content: &str, documents: &[RetrievedDocument]) -> (r: String)
    ensures
        r@ == chunk_references_replaced(content@, documents@),
        regex_compiles(CHUNK_REFERENCE_PATTERN@) ==> r@ == replaced_text(
            regex_segments(CHUNK_REFERENCE_PATTERN@, content@),
            documents@,
        ),
        !regex_compiles(CHUNK_REFERENCE_PATTERN@) ==> r@ == content@,
        regex_compiles(CHUNK_REFERENCE_PATTERN@) && (forall|k: int|
            0 <= k < regex_segments(CHUNK_REFERENCE_PATTERN@, content@).len() ==> !(#[trigger] regex_segments(
                CHUNK_REFERENCE_PATTERN@,
                content@,
            )[k]).1) ==> r@ == content@,
{
    let re = match compile_pattern(CHUNK_REFERENCE_PATTERN) {
        Some(re) => re,
        None => return content.to_string(),
    };
    let segs = pattern_segments(&re, content);
    let ghost views = segs@.map_values(|s: RegexSegment| segment_view(s));
    proof {
        if forall|k: int| 0 <= k < views.len() ==> !(#[trigger] views[k]).1 {
            lemma_replaced_text_without_references(views, documents@);
        }
    }
    let mut out: Vec<char> = Vec::new();
    let mut i: usize = 0;
    while i < segs.len()
        invariant
            i <= segs.len(),
            views == segs@.map_values(|s: RegexSegment| segment_view(s)),
            out@ == replaced_text(views.take(i as int), documents@),
        decreases segs.len() - i,
    {
        let seg = &segs[i];
        assert(views[i as int] == segment_view(*seg));
        assert(views.take(i + 1).drop_last() =~= views.take(i as int));
        let ghost before = out@;
        let mut replaced = false;
        if seg.is_match {
            match &seg.group1 {
                Some(g) => {
                    let gc = str_to_chars(g.as_str());
                    match parse_usize(gc.as_slice()) {
                        Some(n) => {
                            let t = title_for_chunk(documents, n);
                            append_chars(&mut out, t.as_slice());
                            replaced = true;
                        },
                        None => {},
                    }
                },
                None => {},
            }
        }
        if !replaced {
            append_str(&mut out, seg.text.as_str());
        }
        assert(out@ =~= before + replaced_segment(views[i as int], documents@));
        i = i + 1;
    }
    assert(views.take(segs.len() as int) =~= views);
    chars_to_string(out.as_slice())
}

} // verus!
