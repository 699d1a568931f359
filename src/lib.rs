//! Request building and response rendering for a command-line client of a
//! code indexing and search service.
pub mod text;
pub mod path;
pub mod api;
pub mod format;
pub mod client;
pub mod commands;

pub use api::{IndexPathRequest, SearchParams, SearchResponse, SearchResult};
pub use client::{HttpRequest, Method, TransportError, check_status};
pub use commands::{
    Cli, CliError, Commands, DEFAULT_LIMIT, execute_index, execute_search, execute_unindex,
    index_output, search_command_output,
};
pub use format::{FormatError, ParseAttempts, format_results, format_search_results};
pub use path::{PathError, escape_path, to_absolute};
