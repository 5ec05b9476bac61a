//! The configuration of one run, as the command line gives it.

use crate::text::{has_prefix_ignoring_case, starts_with_ignoring_case};
use vstd::prelude::*;
use vstd::string::StringExecFns;

verus! {

/// What the user asked for.
#[derive(Debug)]
pub struct Cli {
    /// The URL to download from.
    pub url: String,
    /// The file to write to; `None` leaves the choice to the response.
    pub output: Option<String>,
    /// The name of the HTTP method.
    pub type_of_req: String,
    /// One raw `name:value` header; empty for none.
    pub header: String,
    /// Whether to print a line at each stage.
    pub verbose: bool,
}

/// The method name that is used where none is given.
pub open spec fn default_type() -> Seq<char> {
    "get"@
}

/// Whether a URL names the HTTP or HTTPS scheme, in any case.
pub open spec fn looks_like_http(url: Seq<char>) -> bool {
    has_prefix_ignoring_case(url, "http://"@) || has_prefix_ignoring_case(url, "https://"@)
}

/// Puts the configuration together from the values found on the command
/// line: a missing method name becomes `get`, a missing header the empty
/// string, and everything else is kept as given.
pub fn args(
    url: String,
    output: Option<String>,
    type_of_req: Option<String>,
    header: Option<String>,
    verbose: bool,
) -> (cli: Cli)
    ensures
        cli.url == url,
        cli.output == output,
        cli.type_of_req@ == (match type_of_req {
            Some(name) => name@,
            None => default_type(),
        }),
        cli.header@ == (match header {
            Some(raw) => raw@,
            None => Seq::<char>::empty(),
        }),
        cli.verbose == verbose,
{
    let type_of_req = match type_of_req {
        Some(name) => name,
        None => String::from_str("get"),
    };
    let header = match header {
        Some(raw) => raw,
        None => String::new(),
    };
    Cli { url, output, type_of_req, header, verbose }
}

/// Says whether the URL looks like an HTTP or HTTPS address. Where it does
/// not, the user is to be asked before the run goes on.
pub fn validate_url(url: &String) -> (supported: bool)
    ensures
        supported == looks_like_http(url@),
{
    let url: &str = url.as_str();
    starts_with_ignoring_case(url, "http://") || starts_with_ignoring_case(url, "https://")
}

} // verus!
