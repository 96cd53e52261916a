//! Prompt injection prevention for LLM chat operations: escaping of user
//! input, delimiting of document chunks, weighted scoring of injection
//! patterns in user input and screening of LLM responses.
use vstd::prelude::*;
use crate::pattern::{CompiledPattern, compile_pattern, pattern_is_match, regex_compiles, regex_is_match};
use crate::text::{
    append_chars, append_str, chars_to_string, decimal, decimal_chars, join, join_strs, replace_all,
    replace_str, str_to_chars, trim_end, trim_end_exec, views_of, is_whitespace,
    lemma_trim_end_no_trailing_whitespace,
};

verus! {

/// Marks the start of a document chunk in the LLM context.
pub const CHUNK_DELIMITER_START: &'static str = "<|doc_start|>";

/// Marks the end of a document chunk in the LLM context.
pub const CHUNK_DELIMITER_END: &'static str = "<|doc_end|>";

/// Minimum cumulative pattern score at which user input is classified as a
/// probable injection attempt.
pub const INJECTION_SCORE_THRESHOLD: u32 = 3;

/// Number of weighted injection patterns.
pub const NUM_INJECTION_PATTERNS: usize = 8;

/// The text of the `i`-th weighted injection pattern.
pub open spec fn injection_pattern_source(i: int) -> Seq<char> {
    if i == 0 {
        r"(?i)\b(ignore|forget|disregard)\b.{0,30}\b(previous|above|all|instructions?|context|rules?|prompt)\b"@
    } else if i == 1 {
        r"(?i)\bsystem prompt\b"@
    } else if i == 2 {
        r"(?i)\b(override|replace|rewrite)\b.{0,20}\b(instructions?|rules?|prompt|behavior)\b"@
    } else if i == 3 {
        r"(?i)\bdo not\b.{0,30}\b(follow|obey|listen|use)\b"@
    } else if i == 4 {
        r"(?i)\b(this is fake|that was wrong|correction|addendum)\b"@
    } else if i == 5 {
        r"(?i)\bnew (task|role|instructions?)\b"@
    } else if i == 6 {
        r"(?i)\b(ps:|p\.s\.:?|postscript)\b"@
    } else {
        r"(?i)\binstead of\b.{0,20}\b(answering|following|using)\b"@
    }
}

/// The weight of the `i`-th injection pattern.
pub open spec fn injection_pattern_weight(i: int) -> nat {
    if i == 0 || i == 1 || i == 2 {
        3
    } else if i == 6 {
        1
    } else {
        2
    }
}

/// The description of the `i`-th injection pattern.
pub open spec fn injection_pattern_description(i: int) -> Seq<char> {
    if i == 0 {
        "instruction override"@
    } else if i == 1 {
        "system prompt probe"@
    } else if i == 2 {
        "instruction replacement"@
    } else if i == 3 {
        "instruction negation"@
    } else if i == 4 {
        "context manipulation"@
    } else if i == 5 {
        "task switching"@
    } else if i == 6 {
        "postscript injection"@
    } else {
        "alternative instruction"@
    }
}

/// A weighted injection pattern. `regex` is `None` when the pattern text
/// does not compile.
pub struct InjectionPattern {
    pub regex: Option<CompiledPattern>,
    pub weight: u32,
    pub description: &'static str,
}

/// `p` is the `i`-th injection pattern.
pub open spec fn is_injection_pattern(p: InjectionPattern, i: int) -> bool {
    &&& p.weight == injection_pattern_weight(i)
    &&& p.description@ == injection_pattern_description(i)
    &&& (p.regex is Some <==> regex_compiles(injection_pattern_source(i)))
    &&& (p.regex matches Some(c) ==> c.source() == injection_pattern_source(i))
}

fn make_pattern(source: &str, weight: u32, description: &'static str) -> (r: InjectionPattern)
    ensures
        r.weight == weight,
        r.description == description,
        r.regex is Some <==> regex_compiles(source@),
        r.regex matches Some(c) ==> c.source() == source@,
{
    InjectionPattern { regex: compile_pattern(source), weight, description }
}

/// The weighted injection patterns, in order.
pub fn get_injection_patterns() -> (r: Vec<InjectionPattern>)
    ensures
        r.len() == NUM_INJECTION_PATTERNS,
        forall|i: int| 0 <= i < r.len() ==> is_injection_pattern(#[trigger] r[i], i),
        r[0].weight == 3 && r[1].weight == 3 && r[2].weight == 3 && r[3].weight == 2,
        r[4].weight == 2 && r[5].weight == 2 && r[6].weight == 1 && r[7].weight == 2,
        r[3].description@ == "instruction negation"@,
        r[6].description@ == "postscript injection"@,
{
    let mut v: Vec<InjectionPattern> = Vec::new();
    v.push(make_pattern(
        r"(?i)\b(ignore|forget|disregard)\b.{0,30}\b(previous|above|all|instructions?|context|rules?|prompt)\b",
        3,
        "instruction override",
    ));
    v.push(make_pattern(r"(?i)\bsystem prompt\b", 3, "system prompt probe"));
    v.push(make_pattern(
        r"(?i)\b(override|replace|rewrite)\b.{0,20}\b(instructions?|rules?|prompt|behavior)\b",
        3,
        "instruction replacement",
    ));
    v.push(make_pattern(r"(?i)\bdo not\b.{0,30}\b(follow|obey|listen|use)\b", 2, "instruction negation"));
    v.push(make_pattern(
        r"(?i)\b(this is fake|that was wrong|correction|addendum)\b",
        2,
        "context manipulation",
    ));
    v.push(make_pattern(r"(?i)\bnew (task|role|instructions?)\b", 2, "task switching"));
    v.push(make_pattern(r"(?i)\b(ps:|p\.s\.:?|postscript)\b", 1, "postscript injection"));
    v.push(make_pattern(
        r"(?i)\binstead of\b.{0,20}\b(answering|following|using)\b",
        2,
        "alternative instruction",
    ));
    v
}

/// The `i`-th injection pattern compiles and matches `input`.
pub open spec fn pattern_fires(i: int, input: Seq<char>) -> bool {
    regex_compiles(injection_pattern_source(i)) && regex_is_match(injection_pattern_source(i), input)
}

/// The total weight of the first `n` patterns that fire on `input`.
pub open spec fn score_upto(input: Seq<char>, n: nat) -> nat
    decreases n,
{
    if n == 0 {
        0
    } else {
        score_upto(input, (n - 1) as nat) + if pattern_fires(n - 1, input) {
            injection_pattern_weight(n - 1)
        } else {
            0
        }
    }
}

/// The descriptions of the first `n` patterns that fire on `input`, in order.
pub open spec fn matched_upto(input: Seq<char>, n: nat) -> Seq<Seq<char>>
    decreases n,
{
    if n == 0 {
        seq![]
    } else if pattern_fires(n - 1, input) {
        matched_upto(input, (n - 1) as nat).push(injection_pattern_description(n - 1))
    } else {
        matched_upto(input, (n - 1) as nat)
    }
}

/// The injection score of `input`: the total weight of the patterns that fire.
pub open spec fn injection_score(input: Seq<char>) -> nat {
    score_upto(input, NUM_INJECTION_PATTERNS as nat)
}

/// The descriptions of the patterns that fire on `input`.
pub open spec fn injection_matches(input: Seq<char>) -> Seq<Seq<char>> {
    matched_upto(input, NUM_INJECTION_PATTERNS as nat)
}

proof fn lemma_score_bound(input: Seq<char>, n: nat)
    ensures
        score_upto(input, n) <= 3 * n,
    decreases n,
{
    if n > 0 {
        lemma_score_bound(input, (n - 1) as nat);
    }
}

proof fn lemma_score_at_least(input: Seq<char>, n: nat, i: int)
    requires
        0 <= i < n,
        pattern_fires(i, input),
    ensures
        score_upto(input, n) >= injection_pattern_weight(i),
    decreases n,
{
    if i < n - 1 {
        lemma_score_at_least(input, (n - 1) as nat, i);
    }
}

proof fn lemma_score_single(input: Seq<char>, n: nat, i: int)
    requires
        forall|j: int| 0 <= j < n && j != i ==> !#[trigger] pattern_fires(j, input),
    ensures
        score_upto(input, n) == if 0 <= i < n && pattern_fires(i, input) {
            injection_pattern_weight(i)
        } else {
            0
        },
    decreases n,
{
    if n > 0 {
        lemma_score_single(input, (n - 1) as nat, i);
    }
}

/// Any one of the strongest patterns (instruction override, system prompt
/// probe, instruction replacement) is enough to flag an input.
pub proof fn lemma_strong_pattern_flags(input: Seq<char>, i: int)
    requires
        0 <= i < NUM_INJECTION_PATTERNS,
        injection_pattern_weight(i) >= INJECTION_SCORE_THRESHOLD,
        pattern_fires(i, input),
    ensures
        injection_score(input) >= INJECTION_SCORE_THRESHOLD,
{
    lemma_score_at_least(input, NUM_INJECTION_PATTERNS as nat, i);
}

/// A single weaker pattern matching alone never flags an input: it takes
/// several hits, or a strong one.
pub proof fn lemma_single_weak_pattern_passes(input: Seq<char>, i: int)
    requires
        0 <= i < NUM_INJECTION_PATTERNS,
        injection_pattern_weight(i) < INJECTION_SCORE_THRESHOLD,
        forall|j: int| 0 <= j < NUM_INJECTION_PATTERNS && j != i ==> !#[trigger] pattern_fires(j, input),
    ensures
        injection_score(input) < INJECTION_SCORE_THRESHOLD,
{
    lemma_score_single(input, NUM_INJECTION_PATTERNS as nat, i);
}

/// The weights of the patterns, in order: instruction override, system
/// prompt probe and instruction replacement weigh 3; instruction negation,
/// context manipulation and task switching 2; a postscript 1; an
/// alternative instruction 2. The threshold is 3.
pub proof fn lemma_injection_weight_table()
    ensures
        injection_pattern_weight(0) == 3,
        injection_pattern_weight(1) == 3,
        injection_pattern_weight(2) == 3,
        injection_pattern_weight(3) == 2,
        injection_pattern_weight(4) == 2,
        injection_pattern_weight(5) == 2,
        injection_pattern_weight(6) == 1,
        injection_pattern_weight(7) == 2,
        injection_pattern_description(3) == "instruction negation"@,
        injection_pattern_source(3) == r"(?i)\bdo not\b.{0,30}\b(follow|obey|listen|use)\b"@,
        INJECTION_SCORE_THRESHOLD == 3,
{
}

/// The score of an input is the sum, over the patterns that fire on it, of
/// 3 for instruction override, system prompt probe and instruction
/// replacement, 2 for instruction negation, context manipulation, task
/// switching and alternative instruction, and 1 for a postscript.
pub proof fn lemma_injection_score_is_weighted_sum(input: Seq<char>)
    ensures
        injection_score(input) == (if pattern_fires(0, input) { 3int } else { 0 }) + (if pattern_fires(1, input) {
            3int
        } else {
            0
        }) + (if pattern_fires(2, input) { 3int } else { 0 }) + (if pattern_fires(3, input) {
            2int
        } else {
            0
        }) + (if pattern_fires(4, input) { 2int } else { 0 }) + (if pattern_fires(5, input) {
            2int
        } else {
            0
        }) + (if pattern_fires(6, input) { 1int } else { 0 }) + (if pattern_fires(7, input) {
            2int
        } else {
            0
        }),
{
    reveal_with_fuel(score_upto, 9);
}

/// A request that only trips the instruction negation pattern (such as
/// "do not use bullet points") scores 2 and is not flagged.
pub proof fn lemma_negation_alone_not_flagged(input: Seq<char>)
    requires
        pattern_fires(3, input),
        forall|j: int| 0 <= j < NUM_INJECTION_PATTERNS && j != 3 ==> !#[trigger] pattern_fires(j, input),
    ensures
        injection_score(input) == 2,
        injection_score(input) < 3,
{
    lemma_injection_score_is_weighted_sum(input);
    assert(!pattern_fires(0, input) && !pattern_fires(1, input) && !pattern_fires(2, input));
    assert(!pattern_fires(4, input) && !pattern_fires(5, input) && !pattern_fires(6, input));
    assert(!pattern_fires(7, input));
}

/// A postscript alone scores 1 and is not flagged; a postscript together
/// with any pattern of weight 2 reaches the threshold of 3.
pub proof fn lemma_postscript_needs_company(input: Seq<char>, j: int)
    requires
        pattern_fires(6, input),
        j == 3 || j == 4 || j == 5 || j == 7,
        forall|k: int| 0 <= k < NUM_INJECTION_PATTERNS && k != 6 && k != j ==> !#[trigger] pattern_fires(k, input),
    ensures
        pattern_fires(j, input) ==> injection_score(input) == 3,
        !pattern_fires(j, input) ==> injection_score(input) == 1,
{
    lemma_injection_score_is_weighted_sum(input);
    assert(!pattern_fires(0, input) && !pattern_fires(1, input) && !pattern_fires(2, input));
    assert(j != 3 ==> !pattern_fires(3, input));
    assert(j != 4 ==> !pattern_fires(4, input));
    assert(j != 5 ==> !pattern_fires(5, input));
    assert(j != 7 ==> !pattern_fires(7, input));
}

/// Scores `input` against the injection patterns: the total weight of the
/// patterns that match and their descriptions, in pattern order.
pub fn score_injection_patterns(input: &str) -> (r: (u32, Vec<&'static str>))
    ensures
        r.0 == injection_score(input@),
        views_of(r.1@) == injection_matches(input@),
{
    let patterns = get_injection_patterns();
    let mut total: u32 = 0;
    let mut matched: Vec<&'static str> = Vec::new();
    let mut i: usize = 0;
    while i < patterns.len()
        invariant
            i <= patterns.len() == NUM_INJECTION_PATTERNS,
            forall|j: int| 0 <= j < patterns.len() ==> is_injection_pattern(#[trigger] patterns[j], j),
            total == score_upto(input@, i as nat),
            views_of(matched@) == matched_upto(input@, i as nat),
        decreases patterns.len() - i,
    {
        proof {
            lemma_score_bound(input@, i as nat);
        }
        let p = &patterns[i];
        assert(is_injection_pattern(patterns[i as int], i as int));
        let fires = match &p.regex {
            Some(c) => pattern_is_match(c, input),
            None => false,
        };
        if fires {
            total = total + p.weight;
            let ghost before = matched@;
            matched.push(p.description);
            assert(views_of(matched@) =~= views_of(before).push(p.description@));
        }
        i = i + 1;
    }
    (total, matched)
}

/// The reason reported for an input whose score reaches the threshold.
pub open spec fn injection_reason(score: nat, matched: Seq<Seq<char>>) -> Seq<char> {
    "injection patterns detected (score "@ + decimal(score) + "/"@ + decimal(
        INJECTION_SCORE_THRESHOLD as nat,
    ) + "): "@ + join(matched, ", "@)
}

/// Detects a probable injection attempt in user input: `Some(reason)`
/// exactly when the weighted score reaches `INJECTION_SCORE_THRESHOLD`.
pub fn detect_injection_attempt(user_input: &str) -> (r: Option<String>)
    ensures
        r is Some <==> injection_score(user_input@) >= INJECTION_SCORE_THRESHOLD,
        r is Some <==> injection_score(user_input@) >= 3,
        r matches Some(reason) ==> reason@ == injection_reason(
            injection_score(user_input@),
            injection_matches(user_input@),
        ),
{
    let (score, matched) = score_injection_patterns(user_input);
    if score >= INJECTION_SCORE_THRESHOLD {
        let mut out: Vec<char> = Vec::new();
        append_str(&mut out, "injection patterns detected (score ");
        let s = decimal_chars(score as u64);
        append_chars(&mut out, s.as_slice());
        append_str(&mut out, "/");
        let t = decimal_chars(INJECTION_SCORE_THRESHOLD as u64);
        append_chars(&mut out, t.as_slice());
        append_str(&mut out, "): ");
        let j = join_strs(matched.as_slice(), ", ");
        append_chars(&mut out, j.as_slice());
        Some(chars_to_string(out.as_slice()))
    } else {
        None
    }
}


/// The completed lines and the current partial line after scanning `s`
/// the way `str::lines` splits it: at each '\n', where a '\r' just before
/// the '\n' is dropped.
pub open spec fn scan_lines(s: Seq<char>) -> (Seq<Seq<char>>, Seq<char>)
    decreases s.len(),
{
    if s.len() == 0 {
        (seq![], seq![])
    } else {
        let prev = scan_lines(s.drop_last());
        if s.last() == '\n' {
            (prev.0.push(strip_cr(prev.1)), seq![])
        } else {
            (prev.0, prev.1.push(s.last()))
        }
    }
}

/// `line` without one trailing '\r'.
pub open spec fn strip_cr(line: Seq<char>) -> Seq<char> {
    if line.len() > 0 && line.last() == '\r' {
        line.drop_last()
    } else {
        line
    }
}

/// The lines of `s`, as `str::lines` yields them.
pub open spec fn split_lines(s: Seq<char>) -> Seq<Seq<char>> {
    let st = scan_lines(s);
    if st.1.len() > 0 {
        st.0.push(st.1)
    } else {
        st.0
    }
}

/// One line of user input with chunk delimiters and markdown fences escaped.
pub open spec fn escape_line(line: Seq<char>) -> Seq<char> {
    replace_all(
        replace_all(
            replace_all(
                replace_all(line, CHUNK_DELIMITER_START@, r"\<|doc_start|>"@),
                CHUNK_DELIMITER_END@,
                r"\<|doc_end|>"@,
            ),
            "---"@,
            r"\-\-\-"@,
        ),
        "```"@,
        r"\`\`\`"@,
    )
}

/// Each line escaped and followed by '\n'.
pub open spec fn escaped_lines(lines: Seq<Seq<char>>) -> Seq<char>
    decreases lines.len(),
{
    if lines.len() == 0 {
        seq![]
    } else {
        escaped_lines(lines.drop_last()) + escape_line(lines.last()).push('\n')
    }
}

/// The sanitized form of user input.
pub open spec fn sanitized(input: Seq<char>) -> Seq<char> {
    trim_end(escaped_lines(split_lines(input)))
}

fn escape_line_exec(line: &[char]) -> (r: Vec<char>)
    ensures
        r@ == escape_line(line@),
{
    proof {
        reveal_strlit("<|doc_start|>");
        reveal_strlit("<|doc_end|>");
        reveal_strlit("---");
        reveal_strlit("```");
    }
    let a = replace_str(line, CHUNK_DELIMITER_START, r"\<|doc_start|>");
    let b = replace_str(a.as_slice(), CHUNK_DELIMITER_END, r"\<|doc_end|>");
    let c = replace_str(b.as_slice(), "---", r"\-\-\-");
    replace_str(c.as_slice(), "```", r"\`\`\`")
}

/// Sanitized input never ends with whitespace.
pub proof fn lemma_sanitized_no_trailing_whitespace(input: Seq<char>)
    ensures
        sanitized(input).len() == 0 || !is_whitespace(sanitized(input).last()),
{
    lemma_trim_end_no_trailing_whitespace(escaped_lines(split_lines(input)));
}

/// Sanitizes user input against prompt injection: every line has chunk
/// delimiters and the sequences "---" and "```" escaped with backslashes,
/// lines are rejoined with '\n', and trailing whitespace is removed.
pub fn sanitize_user_input(input: &str) -> (r: String)
    ensures
        r@ == sanitized(input@),
{
    let chars = str_to_chars(input);
    let mut out: Vec<char> = Vec::new();
    let mut cur: Vec<char> = Vec::new();
    let ghost mut done: Seq<Seq<char>> = seq![];
    let mut i: usize = 0;
    while i < chars.len()
        invariant
            i <= chars.len(),
            chars@ == input@,
            scan_lines(chars@.take(i as int)) == (done, cur@),
            out@ == escaped_lines(done),
        decreases chars.len() - i,
    {
        assert(chars@.take(i + 1).drop_last() =~= chars@.take(i as int));
        let c = chars[i];
        if c == '\n' {
            let ghost line = strip_cr(cur@);
            if cur.len() > 0 && cur[cur.len() - 1] == '\r' {
                cur.pop();
            }
            assert(cur@ == line);
            let e = escape_line_exec(cur.as_slice());
            append_chars(&mut out, e.as_slice());
            out.push('\n');
            proof {
                assert(done.push(line).drop_last() =~= done);
                done = done.push(line);
            }
            cur = Vec::new();
        } else {
            cur.push(c);
        }
        i = i + 1;
    }
    assert(chars@.take(chars.len() as int) =~= chars@);
    if cur.len() > 0 {
        let e = escape_line_exec(cur.as_slice());
        append_chars(&mut out, e.as_slice());
        out.push('\n');
        assert(done.push(cur@).drop_last() =~= done);
    }
    let t = trim_end_exec(out.as_slice());
    chars_to_string(t.as_slice())
}

/// The escape of one title character.
pub open spec fn escape_char(c: char) -> Seq<char> {
    if c == '\\' {
        seq!['\\', '\\']
    } else if c == '"' {
        seq!['\\', '"']
    } else if c == '\n' {
        seq!['\\', 'n']
    } else if c == '\r' {
        seq!['\\', 'r']
    } else {
        seq![c]
    }
}

/// A title with backslashes, double quotes, newlines and carriage returns
/// escaped with a backslash.
pub open spec fn escaped_title(s: Seq<char>) -> Seq<char>
    decreases s.len(),
{
    if s.len() == 0 {
        seq![]
    } else {
        escape_char(s[0]) + escaped_title(s.drop_first())
    }
}

/// Reverses `escaped_title`.
pub open spec fn unescaped_title(s: Seq<char>) -> Seq<char>
    decreases s.len(),
{
    if s.len() >= 2 && s[0] == '\\' {
        let c = if s[1] == 'n' {
            '\n'
        } else if s[1] == 'r' {
            '\r'
        } else {
            s[1]
        };
        seq![c] + unescaped_title(s.skip(2))
    } else if s.len() == 0 {
        seq![]
    } else {
        seq![s[0]] + unescaped_title(s.drop_first())
    }
}

proof fn lemma_escaped_title_append(a: Seq<char>, c: char)
    ensures
        escaped_title(a.push(c)) == escaped_title(a) + escape_char(c),
    decreases a.len(),
{
    if a.len() == 0 {
        assert(a.push(c).drop_first() =~= Seq::<char>::empty());
        assert(a.push(c)[0] == c);
        assert(escaped_title(Seq::<char>::empty()) == Seq::<char>::empty());
        assert(escaped_title(a) == Seq::<char>::empty());
        assert(escaped_title(a.push(c)) =~= escape_char(c) + Seq::<char>::empty());
    } else {
        assert(a.push(c).drop_first() =~= a.drop_first().push(c));
        lemma_escaped_title_append(a.drop_first(), c);
        assert(escaped_title(a.push(c)) =~= escaped_title(a) + escape_char(c));
    }
}

/// Escaping never leaves a raw line break in a title, and the title can
/// always be recovered from its escape.
pub proof fn lemma_escaped_title_roundtrip(s: Seq<char>)
    ensures
        unescaped_title(escaped_title(s)) == s,
        forall|k: int|
            0 <= k < escaped_title(s).len() ==> #[trigger] escaped_title(s)[k] != '\n'
                && escaped_title(s)[k] != '\r',
    decreases s.len(),
{
    if s.len() > 0 {
        let rest = s.drop_first();
        lemma_escaped_title_roundtrip(rest);
        let e = escape_char(s[0]);
        let er = escaped_title(rest);
        assert(escaped_title(s) == e + er);
        if e.len() == 2 {
            assert((e + er).skip(2) =~= er);
        } else {
            assert((e + er).drop_first() =~= er);
        }
        assert(s =~= seq![s[0]] + rest);
        assert forall|k: int| 0 <= k < escaped_title(s).len() implies #[trigger] escaped_title(s)[k]
            != '\n' && escaped_title(s)[k] != '\r' by {
            if k >= e.len() {
                assert(escaped_title(s)[k] == er[k - e.len()]);
            }
        }
    }
}

/// Escapes special characters in document titles.
pub fn escape_title(title: &str) -> (r: String)
    ensures
        r@ == escaped_title(title@),
{
    let chars = str_to_chars(title);
    let mut out: Vec<char> = Vec::new();
    let mut i: usize = 0;
    while i < chars.len()
        invariant
            i <= chars.len(),
            chars@ == title@,
            out@ == escaped_title(chars@.take(i as int)),
        decreases chars.len() - i,
    {
        let c = chars[i];
        proof {
            assert(chars@.take(i + 1) =~= chars@.take(i as int).push(c));
            lemma_escaped_title_append(chars@.take(i as int), c);
        }
        if c == '\\' {
            out.push('\\');
            out.push('\\');
        } else if c == '"' {
            out.push('\\');
            out.push('"');
        } else if c == '\n' {
            out.push('\\');
            out.push('n');
        } else if c == '\r' {
            out.push('\\');
            out.push('r');
        } else {
            out.push(c);
        }
        assert(out@ =~= escaped_title(chars@.take(i as int)) + escape_char(c));
        i = i + 1;
    }
    assert(chars@.take(chars.len() as int) =~= chars@);
    chars_to_string(out.as_slice())
}

/// A document chunk framed by the chunk delimiters, with its number, escaped
/// title, rendered similarity score and content.
pub open spec fn document_chunk(
    chunk_number: nat,
    item_title: Seq<char>,
    similarity_score: Seq<char>,
    content: Seq<char>,
) -> Seq<char> {
    CHUNK_DELIMITER_START@ + "\n[Chunk "@ + decimal(chunk_number) + "] - "@ + escaped_title(item_title)
        + "\nSimilarity Score: "@ + similarity_score + "\nContent:\n"@ + content + "\n"@
        + CHUNK_DELIMITER_END@
}

/// Formats a document chunk with clear delimiters. `similarity_score` is
/// the score as displayed, with two decimals.
pub fn format_document_chunk(
    chunk_number: usize,
    item_title: &str,
    similarity_score: &str,
    content: &str,
) -> (r: String)
    ensures
        r@ == document_chunk(chunk_number as nat, item_title@, similarity_score@, content@),
{
    let mut out: Vec<char> = Vec::new();
    append_str(&mut out, CHUNK_DELIMITER_START);
    append_str(&mut out, "\n[Chunk ");
    let n = decimal_chars(chunk_number as u64);
    append_chars(&mut out, n.as_slice());
    append_str(&mut out, "] - ");
    let t = escape_title(item_title);
    append_str(&mut out, t.as_str());
    append_str(&mut out, "\nSimilarity Score: ");
    append_str(&mut out, similarity_score);
    append_str(&mut out, "\nContent:\n");
    append_str(&mut out, content);
    append_str(&mut out, "\n");
    append_str(&mut out, CHUNK_DELIMITER_END);
    chars_to_string(out.as_slice())
}

/// Number of patterns that flag a suspicious LLM response.
pub const NUM_RESPONSE_PATTERNS: usize = 6;

/// The text of the `i`-th suspicious-response pattern.
pub open spec fn response_pattern_source(i: int) -> Seq<char> {
    if i == 0 {
        r"(?i)ignore.*instructions?"@
    } else if i == 1 {
        r"(?i)forgot.*context"@
    } else if i == 2 {
        r"(?i)new task"@
    } else if i == 3 {
        r"(?i)malicious|attack|injection"@
    } else if i == 4 {
        r"(?i)outside.*context|beyond.*context"@
    } else {
        r"(?i)system prompt.*is"@
    }
}

/// The `i`-th suspicious-response pattern compiles and matches `response`.
pub open spec fn response_pattern_fires(i: int, response: Seq<char>) -> bool {
    regex_compiles(response_pattern_source(i)) && regex_is_match(response_pattern_source(i), response)
}

fn response_pattern(i: usize) -> (r: &'static str)
    requires
        i < NUM_RESPONSE_PATTERNS,
    ensures
        r@ == response_pattern_source(i as int),
{
    if i == 0 {
        r"(?i)ignore.*instructions?"
    } else if i == 1 {
        r"(?i)forgot.*context"
    } else if i == 2 {
        r"(?i)new task"
    } else if i == 3 {
        r"(?i)malicious|attack|injection"
    } else if i == 4 {
        r"(?i)outside.*context|beyond.*context"
    } else {
        r"(?i)system prompt.*is"
    }
}

/// Validates an LLM response for injection indicators: `true` when the
/// response looks suspicious, that is when one of the response patterns
/// matches it.
pub fn validate_response(response: &str) -> (r: bool)
    ensures
        r <==> exists|i: int| 0 <= i < NUM_RESPONSE_PATTERNS && #[trigger] response_pattern_fires(i, response@),
{
    let mut i: usize = 0;
    while i < NUM_RESPONSE_PATTERNS
        invariant
            i <= NUM_RESPONSE_PATTERNS,
            forall|j: int| 0 <= j < i ==> !#[trigger] response_pattern_fires(j, response@),
        decreases NUM_RESPONSE_PATTERNS - i,
    {
        let src = response_pattern(i);
        match compile_pattern(src) {
            Some(c) => {
                if pattern_is_match(&c, response) {
                    assert(response_pattern_fires(i as int, response@));
                    return true;
                }
            },
            None => {},
        }
        i = i + 1;
    }
    false
}

} // verus!
