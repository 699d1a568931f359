//! Rendering of search answers as plain text.
use vstd::prelude::*;
use crate::api::{SearchResponse, SearchResult};
use crate::text::{chars_of, push_char, push_dec_i64, push_str, dec_int};

verus! {

/// Whether `s` holds the two characters `\` `n` at `i`.
pub open spec fn escaped_lf_at(s: Seq<char>, i: int) -> bool {
    0 <= i && i + 1 < s.len() && s[i] == '\\' && s[i + 1] == 'n'
}

/// Whether `s` holds the four characters `\` `r` `\` `n` at `i`.
pub open spec fn escaped_crlf_at(s: Seq<char>, i: int) -> bool {
    0 <= i && i + 3 < s.len() && s[i] == '\\' && s[i + 1] == 'r' && s[i + 2] == '\\'
        && s[i + 3] == 'n'
}

/// Content with its written-out line breaks turned into real ones, read in
/// one scan from the left: an escaped `\r\n` becomes CR LF, an escaped `\n`
/// becomes LF. `lemma_unescape_is_two_replacements` shows that this is the
/// same as replacing every `\r\n` escape first and every `\n` escape then.
pub open spec fn unescape_content(s: Seq<char>) -> Seq<char>
    decreases s.len(),
{
    if s.len() == 0 {
        seq![]
    } else if escaped_crlf_at(s, 0) {
        seq!['\r', '\n'] + unescape_content(s.skip(4))
    } else if escaped_lf_at(s, 0) {
        seq!['\n'] + unescape_content(s.skip(2))
    } else {
        seq![s[0]] + unescape_content(s.skip(1))
    }
}

/// The text block of one result.
pub open spec fn block(r: SearchResult) -> Seq<char> {
    "file: "@ + r.file@ + "\n"@
        + "startLine: "@ + dec_int(r.start_line as int) + "\n"@
        + "endLine: "@ + dec_int(r.end_line as int) + "\n"@
        + "score: "@ + r.score@ + "\n"@
        + "language: "@ + r.language@ + "\n\n"@
        + unescape_content(r.content@)
        + "\n\n---\n"@
}

/// The blocks of all results, in order.
pub open spec fn render_all(rs: Seq<SearchResult>) -> Seq<char>
    decreases rs.len(),
{
    if rs.len() == 0 {
        seq![]
    } else {
        render_all(rs.drop_last()) + block(rs.last())
    }
}

/// Appends the content with its line-break escapes turned into line breaks.
pub fn push_content(out: &mut String, content: &str)
    ensures
        final(out)@ == old(out)@ + unescape_content(content@),
{
    let s = chars_of(content);
    let ghost start = out@;
    let mut i: usize = 0;
    assert(s@.skip(0) =~= s@);
    while i < s.len()
        invariant
            i <= s.len(),
            s@ == content@,
            out@ + unescape_content(s@.skip(i as int)) == start + unescape_content(s@),
        decreases s.len() - i,
    {
        let ghost rest = s@.skip(i as int);
        if s.len() - i > 3 && s[i] == '\\' && s[i + 1] == 'r' && s[i + 2] == '\\'
            && s[i + 3] == 'n' {
            assert(escaped_crlf_at(rest, 0));
            assert(rest.skip(4) =~= s@.skip(i + 4));
            push_char(out, '\r');
            push_char(out, '\n');
            i = i + 4;
        } else if s.len() - i > 1 && s[i] == '\\' && s[i + 1] == 'n' {
            assert(!escaped_crlf_at(rest, 0));
            assert(escaped_lf_at(rest, 0));
            assert(rest.skip(2) =~= s@.skip(i + 2));
            push_char(out, '\n');
            i = i + 2;
        } else {
            assert(!escaped_crlf_at(rest, 0));
            assert(!escaped_lf_at(rest, 0));
            assert(rest.skip(1) =~= s@.skip(i + 1));
            push_char(out, s[i]);
            i = i + 1;
        }
        assert(out@ + unescape_content(s@.skip(i as int)) =~= start + unescape_content(s@));
    }
    assert(s@.skip(i as int) =~= Seq::<char>::empty());
    assert(out@ =~= start + unescape_content(s@));
}

/// Appends the text block of one result.
pub fn push_block(out: &mut String, r: &SearchResult)
    ensures
        final(out)@ == old(out)@ + block(*r),
{
    let ghost start = out@;
    push_str(out, "file: ");
    push_str(out, r.file.as_str());
    push_str(out, "\n");
    push_str(out, "startLine: ");
    push_dec_i64(out, r.start_line as i64);
    push_str(out, "\n");
    push_str(out, "endLine: ");
    push_dec_i64(out, r.end_line as i64);
    push_str(out, "\n");
    push_str(out, "score: ");
    push_str(out, r.score.as_str());
    push_str(out, "\n");
    push_str(out, "language: ");
    push_str(out, r.language.as_str());
    push_str(out, "\n\n");
    push_content(out, r.content.as_str());
    push_str(out, "\n\n---\n");
    assert(out@ =~= start + block(*r));
}

/// Renders each result as a block, in order.
pub fn format_results(results: &[SearchResult]) -> (r: String)
    ensures
        r@ == render_all(results@),
{
    let mut out = String::new();
    let mut i: usize = 0;
    while i < results.len()
        invariant
            i <= results.len(),
            out@ == render_all(results@.take(i as int)),
        decreases results.len() - i,
    {
        push_block(&mut out, &results[i]);
        assert(results@.take(i + 1).drop_last() =~= results@.take(i as int));
        i = i + 1;
    }
    assert(results@.take(i as int) =~= results@);
    out
}

/// The search answer could not be read in any of the accepted shapes.
#[derive(Debug, Clone, Copy, PartialEq, Eq, Structural)]
pub struct FormatError;

impl FormatError {
    /// A one-line description of the error.
    pub fn message(&self) -> (r: String)
        ensures
            r@ == "Failed to parse search response"@,
    {
        String::from_str("Failed to parse search response")
    }
}

/// What reading one answer body as each accepted shape gave: as the wrapped
/// shape, as a single result, and as a bare list of results (`None` where
/// the body is not of that shape).
pub struct ParseAttempts {
    pub wrapper: Option<SearchResponse>,
    pub single: Option<SearchResult>,
    pub list: Option<Vec<SearchResult>>,
}

/// The results that an answer stands for: the first shape that fits, where
/// the wrapped shape fits only when it holds a result list.
pub open spec fn chosen_results(a: ParseAttempts) -> Option<Seq<SearchResult>> {
    if a.wrapper is Some && a.wrapper->Some_0.results is Some {
        Some(a.wrapper->Some_0.results->Some_0@)
    } else if a.single is Some {
        Some(seq![a.single->Some_0])
    } else if a.list is Some {
        Some(a.list->Some_0@)
    } else {
        None
    }
}

/// The text that an answer renders to, or `None` where no shape fits.
pub open spec fn search_output(a: ParseAttempts) -> Option<Seq<char>> {
    match chosen_results(a) {
        Some(rs) => Some(render_all(rs)),
        None => None,
    }
}

/// Renders the results of the first shape that fits, in the order wrapped
/// list, single result, bare list; fails where none fits.
pub fn format_search_results(attempts: &ParseAttempts) -> (r: Result<String, FormatError>)
    ensures
        search_output(*attempts) is None <==> r is Err,
        search_output(*attempts) is Some ==> r is Ok && r->Ok_0@ == search_output(*attempts)->Some_0,
{
    if let Some(resp) = &attempts.wrapper {
        if let Some(results) = &resp.results {
            return Ok(format_results(results.as_slice()));
        }
    }
    if let Some(result) = &attempts.single {
        let mut out = String::new();
        push_block(&mut out, result);
        let ghost one = seq![*result];
        assert(one.drop_last() =~= Seq::<SearchResult>::empty());
        assert(render_all(one) == render_all(one.drop_last()) + block(one.last()));
        assert(out@ =~= render_all(one));
        return Ok(out);
    }
    if let Some(results) = &attempts.list {
        return Ok(format_results(results.as_slice()));
    }
    Err(FormatError)
}

/// The rendering of `n` results is the concatenation of their `n` blocks, in
/// order; each block opens with the `file` line and closes with a line that
/// holds `---`.
pub proof fn lemma_output_is_blocks(rs: Seq<SearchResult>)
    ensures
        render_all(rs) == rs.map_values(|r: SearchResult| block(r)).flatten(),
        rs.map_values(|r: SearchResult| block(r)).len() == rs.len(),
        forall|i: int| 0 <= i < rs.len() ==> {
            let b = #[trigger] block(rs[i]);
            &&& b.take(6) == "file: "@
            &&& b.skip(b.len() - 6) == "\n\n---\n"@
        },
    decreases rs.len(),
{
    reveal_strlit("file: ");
    reveal_strlit("\n\n---\n");
    let bs = rs.map_values(|r: SearchResult| block(r));
    if rs.len() > 0 {
        lemma_output_is_blocks(rs.drop_last());
        assert(bs.drop_last() =~= rs.drop_last().map_values(|r: SearchResult| block(r)));
        assert(bs =~= bs.drop_last().push(block(rs.last())));
        bs.drop_last().lemma_flatten_push(block(rs.last()));
    } else {
        assert(bs =~= Seq::<Seq<char>>::empty());
    }
    assert forall|i: int| 0 <= i < rs.len() implies {
        let b = #[trigger] block(rs[i]);
        &&& b.take(6) == "file: "@
        &&& b.skip(b.len() - 6) == "\n\n---\n"@
    } by {
        let b = block(rs[i]);
        assert(b.take(6) =~= "file: "@);
        assert(b.skip(b.len() - 6) =~= "\n\n---\n"@);
    }
}

/// An answer in the wrapped shape with a result list renders to the blocks
/// of exactly those results.
pub proof fn lemma_wrapped_output(a: ParseAttempts)
    requires
        a.wrapper is Some,
        a.wrapper->Some_0.results is Some,
    ensures
        search_output(a) == Some(
            a.wrapper->Some_0.results->Some_0@.map_values(|r: SearchResult| block(r)).flatten(),
        ),
{
    lemma_output_is_blocks(a.wrapper->Some_0.results->Some_0@);
}

/// Content without any `\n` escape (and so without `\r\n` either) is
/// rendered unchanged.
pub proof fn lemma_plain_content_unchanged(s: Seq<char>)
    requires
        forall|i: int| !escaped_lf_at(s, i),
    ensures
        unescape_content(s) == s,
    decreases s.len(),
{
    if s.len() > 0 {
        assert(!escaped_lf_at(s, 0));
        assert(!escaped_lf_at(s, 2));
        let t = s.skip(1);
        assert forall|i: int| !escaped_lf_at(t, i) by {
            assert(!escaped_lf_at(s, i + 1));
        }
        lemma_plain_content_unchanged(t);
        assert(s =~= seq![s[0]] + t);
    }
}

/// A single bare result renders as the same result in the wrapped shape
/// would: reading a lone result object as the wrapped shape yields no result
/// list, and reading the wrapped object as a single result fails.
pub proof fn lemma_single_as_wrapped(bare: ParseAttempts, wrapped: ParseAttempts)
    requires
        bare.wrapper is None || bare.wrapper->Some_0.results is None,
        bare.single is Some,
        wrapped.wrapper is Some,
        wrapped.wrapper->Some_0.results is Some,
        wrapped.wrapper->Some_0.results->Some_0@ == seq![bare.single->Some_0],
    ensures
        search_output(bare) is Some,
        search_output(bare) == search_output(wrapped),
{
}

/// `s` with every occurrence of `pat`, taken from the left without overlap,
/// replaced by `rep`.
pub open spec fn replace_all(s: Seq<char>, pat: Seq<char>, rep: Seq<char>) -> Seq<char>
    decreases s.len(),
{
    if pat.len() == 0 || s.len() < pat.len() {
        s
    } else if s.take(pat.len() as int) == pat {
        rep + replace_all(s.skip(pat.len() as int), pat, rep)
    } else {
        seq![s[0]] + replace_all(s.skip(1), pat, rep)
    }
}

/// The escaped line break `\r\n`, as it is written out in content.
pub open spec fn crlf_escape() -> Seq<char> {
    seq!['\\', 'r', '\\', 'n']
}

/// The escaped line feed `\n`, as it is written out in content.
pub open spec fn lf_escape() -> Seq<char> {
    seq!['\\', 'n']
}

/// Replacing every `\r\n` escape by CR LF.
pub open spec fn replace_crlf(s: Seq<char>) -> Seq<char> {
    replace_all(s, crlf_escape(), seq!['\r', '\n'])
}

/// Replacing every `\n` escape by LF.
pub open spec fn replace_lf(s: Seq<char>) -> Seq<char> {
    replace_all(s, lf_escape(), seq!['\n'])
}

proof fn lemma_replace_lf_plain_head(c: char, y: Seq<char>)
    requires
        c != '\\',
    ensures
        replace_lf(seq![c] + y) == seq![c] + replace_lf(y),
{
    let t = seq![c] + y;
    if t.len() >= 2 {
        assert(t.take(2) != lf_escape()) by {
            assert(t.take(2)[0] == c);
        }
        assert(t.skip(1) =~= y);
    } else {
        assert(y =~= Seq::<char>::empty());
    }
}

proof fn lemma_replace_crlf_no_match_head(x: Seq<char>)
    requires
        x.len() > 0,
        !escaped_crlf_at(x, 0),
    ensures
        replace_crlf(x) == seq![x[0]] + replace_crlf(x.skip(1)),
{
    if x.len() >= 4 {
        assert(x.take(4) != crlf_escape()) by {
            if x.take(4) == crlf_escape() {
                assert(x.take(4)[0] == x[0] && x.take(4)[1] == x[1]);
                assert(x.take(4)[2] == x[2] && x.take(4)[3] == x[3]);
            }
        }
    } else {
        assert(x =~= seq![x[0]] + x.skip(1));
    }
}

/// Reading content in one scan gives the same text as replacing every
/// `\r\n` escape by CR LF and then every `\n` escape by LF.
pub proof fn lemma_unescape_is_two_replacements(s: Seq<char>)
    ensures
        unescape_content(s) == replace_lf(replace_crlf(s)),
    decreases s.len(),
{
    if s.len() == 0 {
    } else if escaped_crlf_at(s, 0) {
        assert(s.take(4) =~= crlf_escape());
        lemma_unescape_is_two_replacements(s.skip(4));
        let y = replace_crlf(s.skip(4));
        lemma_replace_lf_plain_head('\n', y);
        lemma_replace_lf_plain_head('\r', seq!['\n'] + y);
        assert(seq!['\r', '\n'] + y =~= seq!['\r'] + (seq!['\n'] + y));
        assert(seq!['\r'] + (seq!['\n'] + replace_lf(y)) =~= seq!['\r', '\n'] + replace_lf(y));
    } else if escaped_lf_at(s, 0) {
        lemma_unescape_is_two_replacements(s.skip(2));
        lemma_replace_crlf_no_match_head(s);
        let x = s.skip(1);
        assert(!escaped_crlf_at(x, 0));
        lemma_replace_crlf_no_match_head(x);
        assert(x.skip(1) =~= s.skip(2));
        let z = replace_crlf(s.skip(2));
        let t = seq!['\\'] + (seq!['n'] + z);
        assert(replace_crlf(s) == t);
        assert(t.take(2) =~= lf_escape());
        assert(t.skip(2) =~= z);
    } else {
        lemma_unescape_is_two_replacements(s.skip(1));
        lemma_replace_crlf_no_match_head(s);
        let y = replace_crlf(s.skip(1));
        if s[0] != '\\' {
            lemma_replace_lf_plain_head(s[0], y);
        } else if s.len() == 1 {
            assert(s.skip(1) =~= Seq::<char>::empty());
            assert(seq![s[0]] + y =~= seq![s[0]]);
        } else {
            let x = s.skip(1);
            assert(x[0] == s[1]);
            if escaped_crlf_at(x, 0) {
                assert(x.take(4) =~= crlf_escape());
                assert(y[0] == '\r');
            } else {
                lemma_replace_crlf_no_match_head(x);
                assert(y[0] == x[0]);
            }
            let t = seq![s[0]] + y;
            assert(t.take(2) != lf_escape()) by {
                assert(t.take(2)[1] == y[0]);
            }
            assert(t.skip(1) =~= y);
        }
    }
}

} // verus!
