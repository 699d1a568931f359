//! Absolute-path resolution and the escaping of a path for a JSON string.
use vstd::prelude::*;
use crate::text::{chars_of, push_char, push_str};

verus! {

/// Why a path could not be turned into an absolute one.
#[derive(Debug, Clone, Copy, PartialEq, Eq, Structural)]
pub enum PathError {
    /// The given path was empty.
    Empty,
    /// The path (or the working directory) is not valid Unicode.
    NotUnicode,
}

impl PathError {
    /// A one-line description of the error.
    pub fn message(&self) -> (r: String)
        ensures
            r@ == self.message_spec(),
    {
        match self {
            PathError::Empty => String::from_str("path cannot be empty"),
            PathError::NotUnicode => String::from_str("Invalid path characters"),
        }
    }

    pub open spec fn message_spec(&self) -> Seq<char> {
        match self {
            PathError::Empty => "path cannot be empty"@,
            PathError::NotUnicode => "Invalid path characters"@,
        }
    }
}

/// A path is absolute when it starts at the root separator.
pub open spec fn is_absolute(p: Seq<char>) -> bool {
    p.len() > 0 && p[0] == '/'
}

/// `rel` placed under `base`, with a separator between them unless `base`
/// is empty or already ends in one.
pub open spec fn join(base: Seq<char>, rel: Seq<char>) -> Seq<char> {
    if base.len() == 0 || base.last() == '/' {
        base + rel
    } else {
        base + seq!['/'] + rel
    }
}

/// The absolute form of `p` taken relative to the working directory `cwd`.
pub open spec fn absolute_of(p: Seq<char>, cwd: Seq<char>) -> Seq<char> {
    if is_absolute(p) {
        p
    } else {
        join(cwd, p)
    }
}

/// Resolves `path` against the working directory `cwd`: an absolute path is
/// returned unchanged, a relative one is joined under `cwd`; an empty path is
/// refused.
pub fn to_absolute(path: &str, cwd: &str) -> (r: Result<String, PathError>)
    ensures
        path@.len() == 0 ==> r == Err::<String, PathError>(PathError::Empty),
        path@.len() > 0 ==> r is Ok && r->Ok_0@ == absolute_of(path@, cwd@),
        path@.len() > 0 && !is_absolute(path@) && cwd@.len() > 0 && cwd@.last() != '/'
            ==> r->Ok_0@ == cwd@ + seq!['/'] + path@,
        is_absolute(path@) ==> r->Ok_0@ == path@,
{
    let p = chars_of(path);
    if p.len() == 0 {
        return Err(PathError::Empty);
    }
    if p[0] == '/' {
        return Ok(String::from_str(path));
    }
    let c = chars_of(cwd);
    let mut out = String::from_str(cwd);
    if c.len() > 0 && c[c.len() - 1] != '/' {
        push_char(&mut out, '/');
    }
    push_str(&mut out, path);
    Ok(out)
}

/// The escaped form of one character: `\` and `"` get a backslash before them.
pub open spec fn escape_char(c: char) -> Seq<char> {
    if c == '\\' || c == '"' {
        seq!['\\', c]
    } else {
        seq![c]
    }
}

/// Escaping of a whole path, character by character.
pub open spec fn escape_spec(s: Seq<char>) -> Seq<char>
    decreases s.len(),
{
    if s.len() == 0 {
        seq![]
    } else {
        escape_spec(s.drop_last()) + escape_char(s.last())
    }
}

/// Reads an escaped text back: a `\` or `"` at the end came with the
/// backslash just before it.
pub open spec fn unescape_spec(t: Seq<char>) -> Seq<char>
    decreases t.len(),
{
    if t.len() == 0 {
        seq![]
    } else if (t.last() == '\\' || t.last() == '"') && t.len() >= 2 {
        unescape_spec(t.drop_last().drop_last()).push(t.last())
    } else {
        unescape_spec(t.drop_last()).push(t.last())
    }
}

/// Escapes `\` as `\\` and `"` as `\"`, leaving every other character as it is.
pub fn escape_path(path: &str) -> (r: String)
    ensures
        r@ == escape_spec(path@),
{
    let p = chars_of(path);
    let mut out = String::new();
    let mut i: usize = 0;
    while i < p.len()
        invariant
            i <= p.len(),
            p@ == path@,
            out@ == escape_spec(p@.take(i as int)),
        decreases p.len() - i,
    {
        let c = p[i];
        if c == '\\' || c == '"' {
            push_char(&mut out, '\\');
        }
        push_char(&mut out, c);
        assert(p@.take(i + 1).drop_last() =~= p@.take(i as int));
        assert(out@ =~= escape_spec(p@.take(i + 1)));
        i = i + 1;
    }
    assert(p@.take(i as int) =~= p@);
    out
}

/// Unescaping an escaped path gives the path back.
pub proof fn lemma_unescape_escape(s: Seq<char>)
    ensures
        unescape_spec(escape_spec(s)) == s,
    decreases s.len(),
{
    if s.len() > 0 {
        let t = escape_spec(s);
        let c = s.last();
        lemma_unescape_escape(s.drop_last());
        if c == '\\' || c == '"' {
            assert(t.drop_last().drop_last() =~= escape_spec(s.drop_last()));
        } else {
            assert(t.drop_last() =~= escape_spec(s.drop_last()));
        }
        assert(unescape_spec(t) =~= s);
    }
}

/// Escaping is injective: two paths with the same escaped form are equal.
pub proof fn lemma_escape_injective(a: Seq<char>, b: Seq<char>)
    requires
        escape_spec(a) == escape_spec(b),
    ensures
        a == b,
{
    lemma_unescape_escape(a);
    lemma_unescape_escape(b);
}

} // verus!
