//! The search resolver: builds the tool's search invocation and turns its
//! captured outcome into at most one video record.
//!
//! Only the first output line is ever considered: search means resolving
//! the top hit.  The record's URL is always derived from the identifier by
//! a fixed template; no URL from the raw output is trusted.

use vstd::prelude::*;
use vstd::string::StrSliceExecFns;
use vstd::string::StringExecFns;
use crate::ClientError;
use crate::ToolOutcome;
use crate::json::{json_value_line, json_str_field, line_is_json, json_string_field};
use crate::text::{first_line, first_line_of};

verus! {

/// One resolved video: an opaque identifier, a display title (possibly
/// empty), and the canonical watch URL derived from the identifier.
#[derive(Debug, Clone, PartialEq, Eq)]
pub struct VideoInfo {
    pub id: String,
    pub title: String,
    pub url: String,
}

/// The fixed watch-URL template applied to an identifier.
pub open spec fn watch_url_spec(id: Seq<char>) -> Seq<char> {
    "https://www.youtube.com/watch?v="@ + id
}

/// The search directive handed to the tool: the raw query under a fixed
/// top-ten-results prefix, to bound the tool's work.
pub open spec fn search_query_spec(query: Seq<char>) -> Seq<char> {
    "ytsearch10:"@ + query
}

/// The full argument list of a search invocation: structured one-object-
/// per-line output, no download, quiet, no warnings.
pub open spec fn search_args_spec(query: Seq<char>) -> Seq<Seq<char>> {
    seq![
        "--dump-json"@,
        "--no-download"@,
        "--quiet"@,
        "--no-warnings"@,
        search_query_spec(query),
    ]
}

/// The title a record carries for a given first line: the line's `title`
/// field, or empty when the field is missing.
pub open spec fn title_of(line: Seq<char>) -> Seq<char> {
    match json_str_field(line, "title"@) {
        Option::Some(t) => t,
        Option::None => Seq::empty(),
    }
}

/// What parsing a successful search run's captured standard output yields:
/// no match on empty output; otherwise the first line decides — a line
/// that is not JSON is a parse error, a line without an `id` string field
/// lacks the required field, and any other line yields the record
/// `(id, title, url)` with the URL derived from the identifier.
pub open spec fn search_parse_spec(out: Seq<char>) -> Result<
    Option<(Seq<char>, Seq<char>, Seq<char>)>,
    ClientError,
> {
    if out.len() == 0 {
        Ok(None)
    } else {
        let line = first_line_of(out);
        if !json_value_line(line) {
            Err(ClientError::ParseError)
        } else {
            match json_str_field(line, "id"@) {
                Option::None => Err(ClientError::MissingFieldError),
                Option::Some(id) => Ok(Some((id, title_of(line), watch_url_spec(id)))),
            }
        }
    }
}

/// The record `v` carries exactly the identifier, title and URL of the
/// parsed triple `t`.
pub open spec fn video_matches(v: VideoInfo, t: (Seq<char>, Seq<char>, Seq<char>)) -> bool {
    v.id@ == t.0 && v.title@ == t.1 && v.url@ == t.2
}

/// The returned value `r` is the parse outcome `t`, record for record and
/// error for error.
pub open spec fn search_result_matches(
    r: Result<Option<VideoInfo>, ClientError>,
    t: Result<Option<(Seq<char>, Seq<char>, Seq<char>)>, ClientError>,
) -> bool {
    match r {
        Ok(None) => t == Ok::<Option<(Seq<char>, Seq<char>, Seq<char>)>, ClientError>(None),
        Ok(Some(v)) => t matches Ok(Some(tv)) && video_matches(v, tv),
        Err(e) => t == Err::<Option<(Seq<char>, Seq<char>, Seq<char>)>, ClientError>(e),
    }
}

/// Law: a returned record's URL always equals the fixed template applied
/// to its identifier, whatever URL-like fields the raw output held.
pub proof fn lemma_url_from_template(out: Seq<char>)
    ensures
        (match search_parse_spec(out) {
            Ok(Some(t)) => t.2 == watch_url_spec(t.0),
            _ => true,
        }),
{
}

/// The canonical watch URL of an identifier.
pub fn watch_url(id: &str) -> (r: String)
    ensures
        r@ == watch_url_spec(id@),
{
    let mut s = String::from_str("https://www.youtube.com/watch?v=");
    s.append(id);
    s
}

/// The argument list of a search invocation of the external tool.
pub fn search_args(query: &str) -> (r: Vec<String>)
    ensures
        r.deep_view() == search_args_spec(query@),
{
    let mut prefixed = String::from_str("ytsearch10:");
    prefixed.append(query);
    let mut v: Vec<String> = Vec::new();
    v.push(String::from_str("--dump-json"));
    v.push(String::from_str("--no-download"));
    v.push(String::from_str("--quiet"));
    v.push(String::from_str("--no-warnings"));
    v.push(prefixed);
    proof {
        assert(v.deep_view() =~= search_args_spec(query@));
    }
    v
}

/// Parses the captured standard output of a successful search run into at
/// most one record, as `search_parse_spec` says.
pub fn parse_search_output(stdout: &str) -> (r: Result<Option<VideoInfo>, ClientError>)
    ensures
        search_result_matches(r, search_parse_spec(stdout@)),
{
    let n = stdout.unicode_len();
    if n == 0 {
        return Ok(None);
    }
    let line = first_line(stdout, n);
    if !line_is_json(line) {
        return Err(ClientError::ParseError);
    }
    let id = match json_string_field(line, "id") {
        Some(id) => id,
        None => {
            return Err(ClientError::MissingFieldError);
        },
    };
    let title = match json_string_field(line, "title") {
        Some(t) => t,
        None => String::new(),
    };
    let url = watch_url(id.as_str());
    Ok(Some(VideoInfo { id, title, url }))
}

/// Turns the outcome of a search invocation into the resolver's result: a
/// spawn failure is an execution error carrying the OS error text, a
/// failing exit is a tool error carrying the captured standard error, and
/// a successful run is parsed as `search_parse_spec` says.
pub fn search_response(run: Result<ToolOutcome, String>) -> (r: Result<
    Option<VideoInfo>,
    ClientError,
>)
    ensures
        (match run {
            Err(m) => r == Err::<Option<VideoInfo>, ClientError>(ClientError::ExecutionError(m)),
            Ok(o) => if !o.success {
                r == Err::<Option<VideoInfo>, ClientError>(ClientError::ToolError(o.stderr))
            } else {
                search_result_matches(r, search_parse_spec(o.stdout@))
            },
        }),
{
    match run {
        Err(m) => Err(ClientError::ExecutionError(m)),
        Ok(o) => {
            if !o.success {
                Err(ClientError::ToolError(o.stderr))
            } else {
                parse_search_output(o.stdout.as_str())
            }
        },
    }
}

} // verus!
