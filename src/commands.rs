//! The commands of the client: from arguments to the request that carries
//! them out.
use vstd::prelude::*;
use crate::api::{IndexPathRequest, SearchParams, index_body, search_query};
use crate::client::{
    HttpRequest, Method, TransportError, index_request, index_url, is_request, search_request,
    search_url, unindex_request,
};
use crate::format::{FormatError, ParseAttempts, format_search_results, search_output};
use crate::text::push_str;
use crate::path::{PathError, absolute_of, to_absolute};

verus! {

/// Number of search results asked for when no limit is given.
pub const DEFAULT_LIMIT: u32 = 5;

/// The parsed command line.
pub struct Cli {
    pub command: Commands,
}

/// The operations of the client.
pub enum Commands {
    /// Index the directory at `path`.
    Index { path: String, force: bool },
    /// Search the directory at `path` for `query`.
    Search { path: String, query: String, limit: u32, extensions: Option<String> },
    /// Remove the directory at `path` from the index.
    Unindex { path: String },
}

/// Everything that can make a command fail.
#[derive(Debug, Clone, Copy, PartialEq, Eq, Structural)]
pub enum CliError {
    InvalidPath(PathError),
    Transport(TransportError),
    Format(FormatError),
}

impl CliError {
    /// A one-line description of the error.
    pub fn message(&self) -> (r: String)
        ensures
            r@ == match self {
                CliError::InvalidPath(e) => e.message_spec(),
                CliError::Transport(e) => e.message_spec(),
                CliError::Format(_) => "Failed to parse search response"@,
            },
    {
        match self {
            CliError::InvalidPath(e) => e.message(),
            CliError::Transport(e) => e.message(),
            CliError::Format(e) => e.message(),
        }
    }
}

/// The error for an empty path.
pub open spec fn empty_path_error() -> Result<HttpRequest, CliError> {
    Err(CliError::InvalidPath(PathError::Empty))
}

/// Builds the request that indexes the directory at `path`, taken relative
/// to `cwd` where it is not absolute.
pub fn execute_index(path: &str, force: bool, cwd: &str) -> (r: Result<HttpRequest, CliError>)
    ensures
        path@.len() == 0 ==> r == empty_path_error(),
        path@.len() > 0 ==> r is Ok && is_request(
            r->Ok_0,
            Method::Post,
            index_url(),
            Some(index_body(absolute_of(path@, cwd@), force)),
        ),
{
    match to_absolute(path, cwd) {
        Ok(abs) => {
            let request = IndexPathRequest { path: abs, force };
            Ok(index_request(&request))
        },
        Err(e) => Err(CliError::InvalidPath(e)),
    }
}

/// Builds the request that searches the directory at `path` (taken relative
/// to `cwd` where it is not absolute) for `query`.
pub fn execute_search(
    path: &str,
    query: String,
    limit: u32,
    extensions: Option<String>,
    cwd: &str,
) -> (r: Result<HttpRequest, CliError>)
    ensures
        path@.len() == 0 ==> r == empty_path_error(),
        path@.len() > 0 ==> r is Ok && is_request(
            r->Ok_0,
            Method::Get,
            search_url(
                search_query(
                    absolute_of(path@, cwd@),
                    query@,
                    limit,
                    match extensions {
                        Some(e) => Some(e@),
                        None => None,
                    },
                ),
            ),
            None,
        ),
{
    match to_absolute(path, cwd) {
        Ok(abs) => {
            let params = SearchParams { path: abs, query, limit, extensions };
            Ok(search_request(&params))
        },
        Err(e) => Err(CliError::InvalidPath(e)),
    }
}

/// Builds the request that removes the directory at `path` (taken relative
/// to `cwd` where it is not absolute) from the index; `force` is sent as
/// `false`.
pub fn execute_unindex(path: &str, cwd: &str) -> (r: Result<HttpRequest, CliError>)
    ensures
        path@.len() == 0 ==> r == empty_path_error(),
        path@.len() > 0 ==> r is Ok && is_request(
            r->Ok_0,
            Method::Delete,
            index_url(),
            Some(index_body(absolute_of(path@, cwd@), false)),
        ),
{
    match to_absolute(path, cwd) {
        Ok(abs) => {
            let request = IndexPathRequest { path: abs, force: false };
            Ok(unindex_request(&request))
        },
        Err(e) => Err(CliError::InvalidPath(e)),
    }
}

/// What an index or unindex command prints: the answer body and a line
/// break, or the transport error.
pub fn index_output(response: Result<String, TransportError>) -> (r: Result<String, CliError>)
    ensures
        match response {
            Ok(body) => r is Ok && r->Ok_0@ == body@ + "\n"@,
            Err(e) => r == Err::<String, CliError>(CliError::Transport(e)),
        },
{
    match response {
        Ok(body) => {
            let mut out = body;
            push_str(&mut out, "\n");
            Ok(out)
        },
        Err(e) => Err(CliError::Transport(e)),
    }
}

/// What a search command prints: the rendered results of the answer, or the
/// format error where the answer fits no accepted shape.
pub fn search_command_output(attempts: &ParseAttempts) -> (r: Result<String, CliError>)
    ensures
        search_output(*attempts) is None ==> r == Err::<String, CliError>(
            CliError::Format(FormatError),
        ),
        search_output(*attempts) is Some ==> r is Ok && r->Ok_0@ == search_output(*attempts)->Some_0,
{
    match format_search_results(attempts) {
        Ok(text) => Ok(text),
        Err(e) => Err(CliError::Format(e)),
    }
}

} // verus!
