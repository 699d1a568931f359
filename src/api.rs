//! The values exchanged with the service.
use vstd::prelude::*;
use vstd::utf8::encode_scalar;
use crate::path::{escape_path, escape_spec};
use crate::text::{dec_nat, push_dec_u64, push_str};

verus! {

/// Body of an index or unindex request.
pub struct IndexPathRequest {
    /// Absolute path of the directory.
    pub path: String,
    /// Re-index even when the directory is already indexed.
    pub force: bool,
}

/// Query parameters of a search request.
pub struct SearchParams {
    /// Absolute path of the directory searched in.
    pub path: String,
    /// The search query.
    pub query: String,
    /// Largest number of results wanted.
    pub limit: u32,
    /// Comma-separated file suffixes to keep, if any.
    pub extensions: Option<String>,
}

/// One matched span of code.
pub struct SearchResult {
    pub file: String,
    pub start_line: i32,
    pub end_line: i32,
    /// The relevance score, in its decimal display form.
    pub score: String,
    pub language: String,
    pub content: String,
}

/// The wrapped shape of a search answer.
pub struct SearchResponse {
    pub results: Option<Vec<SearchResult>>,
}

/// The JSON text of an index request: `{"path":"<escaped path>","force":<bool>}`.
pub open spec fn index_body(path: Seq<char>, force: bool) -> Seq<char> {
    "{\"path\":\""@ + escape_spec(path) + "\",\"force\":"@
        + (if force { "true"@ } else { "false"@ }) + "}"@
}

impl IndexPathRequest {
    /// The JSON text of this request, with the path escaped.
    pub fn to_json(&self) -> (r: String)
        ensures
            r@ == index_body(self.path@, self.force),
    {
        let mut out = String::from_str("{\"path\":\"");
        let esc = escape_path(self.path.as_str());
        push_str(&mut out, esc.as_str());
        push_str(&mut out, "\",\"force\":");
        if self.force {
            push_str(&mut out, "true");
        } else {
            push_str(&mut out, "false");
        }
        push_str(&mut out, "}");
        out
    }
}

/// Characters that go into a URL as they are.
pub open spec fn is_unreserved(c: char) -> bool {
    ('0' <= c && c <= '9') || ('A' <= c && c <= 'Z') || ('a' <= c && c <= 'z') || c == '-'
        || c == '.' || c == '_' || c == '~'
}

/// Upper-case hexadecimal digit of `d` (`d < 16`).
pub open spec fn hex_upper(d: u8) -> char {
    if d < 10 {
        crate::text::digit_char(d as nat)
    } else if d == 10 { 'A' }
    else if d == 11 { 'B' }
    else if d == 12 { 'C' }
    else if d == 13 { 'D' }
    else if d == 14 { 'E' }
    else { 'F' }
}

/// `%` and the two hexadecimal digits of each byte.
pub open spec fn percent_bytes(bs: Seq<u8>) -> Seq<char>
    decreases bs.len(),
{
    if bs.len() == 0 {
        seq![]
    } else {
        seq!['%', hex_upper(bs[0] / 16), hex_upper(bs[0] % 16)] + percent_bytes(bs.drop_first())
    }
}

/// Percent-encoding of a text: unreserved characters stay, every byte of
/// the UTF-8 form of any other character becomes `%XX`.
pub open spec fn url_encoded(s: Seq<char>) -> Seq<char>
    decreases s.len(),
{
    if s.len() == 0 {
        seq![]
    } else {
        (if is_unreserved(s[0]) {
            seq![s[0]]
        } else {
            percent_bytes(encode_scalar(s[0] as u32))
        }) + url_encoded(s.drop_first())
    }
}

/// Relies on `urlencoding::encode`, which keeps ASCII letters, digits and
/// `-._~` and writes every other byte of the UTF-8 text as `%` and two
/// upper-case hexadecimal digits.
#[verifier::external_body]
fn url_encode(s: &str) -> (r: String)
    ensures
        r@ == url_encoded(s@),
{
    urlencoding::encode(s).into_owned()
}

/// The query string of a search: `path`, `query`, `limit` and, where given,
/// `extensions`, each value percent-encoded.
pub open spec fn search_query(path: Seq<char>, query: Seq<char>, limit: u32, extensions: Option<Seq<char>>) -> Seq<char> {
    "path="@ + url_encoded(path) + "&query="@ + url_encoded(query) + "&limit="@
        + url_encoded(dec_nat(limit as nat)) + match extensions {
        Some(e) => "&extensions="@ + url_encoded(e),
        None => Seq::<char>::empty(),
    }
}

/// The extensions filter of `p` as characters, if any.
pub open spec fn extensions_view(p: &SearchParams) -> Option<Seq<char>> {
    match &p.extensions {
        Some(e) => Some(e@),
        None => None,
    }
}

impl SearchParams {
    /// The URL query string that carries these parameters.
    pub fn query_string(&self) -> (r: String)
        ensures
            r@ == search_query(self.path@, self.query@, self.limit, extensions_view(self)),
    {
        let mut out = String::from_str("path=");
        let p = url_encode(self.path.as_str());
        push_str(&mut out, p.as_str());
        push_str(&mut out, "&query=");
        let q = url_encode(self.query.as_str());
        push_str(&mut out, q.as_str());
        push_str(&mut out, "&limit=");
        let mut digits = String::new();
        push_dec_u64(&mut digits, self.limit as u64);
        let l = url_encode(digits.as_str());
        push_str(&mut out, l.as_str());
        let ghost before = out@;
        match &self.extensions {
            Some(e) => {
                push_str(&mut out, "&extensions=");
                let x = url_encode(e.as_str());
                push_str(&mut out, x.as_str());
            },
            None => {
                assert(out@ =~= before + Seq::<char>::empty());
            },
        }
        out
    }
}

} // verus!
