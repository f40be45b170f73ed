//! Configuration resolution and dispatch: picking the authentication token,
//! choosing the output mode, and turning a parsed invocation into the single
//! request it performs.

use vstd::prelude::*;

use crate::doc::Doc;
use crate::render::spec_stats_output;
use crate::url::{build_stats_url, build_summary_url, opt_view, spec_stats_url, spec_summary_url};

verus! {

/// The global output format flag.
#[derive(Clone, Copy, Debug, PartialEq, Eq, Structural)]
pub enum Format {
    Text,
    Json,
}

/// Structured output is chosen by the global format or by the subcommand's
/// own flag.
pub open spec fn spec_use_json(format: Format, local_json: bool) -> bool {
    format == Format::Json || local_json
}

/// Whether an invocation selects structured output: the global `json` format
/// or the subcommand flag, either alone sufficient.
pub fn use_json(format: Format, local_json: bool) -> (r: bool)
    ensures
        r == spec_use_json(format, local_json),
{
    match format {
        Format::Json => true,
        Format::Text => local_json,
    }
}

/// A failure detected before any request is made.
#[derive(Debug, PartialEq, Eq)]
pub enum CliError {
    MissingToken,
}

impl CliError {
    /// The human-readable description of the failure.
    pub fn message(&self) -> (r: String)
        ensures
            r@ == "token required via --token or FASTLY_TOKEN"@,
    {
        String::from_str("token required via --token or FASTLY_TOKEN")
    }
}

/// The token an invocation resolves to: the explicit flag first, then the
/// environment value, if either is present.
pub open spec fn spec_token(flag: Option<Seq<char>>, env: Option<Seq<char>>) -> Option<Seq<char>> {
    match flag {
        Some(t) => Some(t),
        None => env,
    }
}

/// Resolves the authentication token: the explicit flag wins, the
/// environment value is the fallback, and with neither present the
/// invocation fails.
pub fn resolve_token(flag: Option<String>, env: Option<String>) -> (r: Result<String, CliError>)
    ensures
        match r {
            Ok(t) => spec_token(opt_view(flag), opt_view(env)) == Some(t@),
            Err(e) => e is MissingToken && spec_token(opt_view(flag), opt_view(env)) is None,
        },
{
    match flag {
        Some(t) => Ok(t),
        None => match env {
            Some(t) => Ok(t),
            None => Err(CliError::MissingToken),
        },
    }
}

/// A parsed subcommand.
pub enum Command {
    Stats { service: String, from: Option<String>, to: Option<String>, by: Option<String>, json: bool },
    Summary { service: String, json: bool },
}

/// Everything the single request needs: where to go, which credential to
/// carry, and whether the response prints verbatim.
pub struct Plan {
    pub url: String,
    pub token: String,
    pub structured: bool,
}

/// The granularity a stats command uses when none is given.
pub open spec fn spec_by(by: Option<Seq<char>>) -> Seq<char> {
    match by {
        Some(b) => b,
        None => "minute"@,
    }
}

/// The URL a command addresses.
pub open spec fn spec_command_url(cmd: Command) -> Seq<char> {
    match cmd {
        Command::Stats { service, from, to, by, json: _ } => spec_stats_url(
            service@,
            opt_view(from),
            opt_view(to),
            spec_by(opt_view(by)),
        ),
        Command::Summary { service, json: _ } => spec_summary_url(service@),
    }
}

/// Whether a command's own flag asks for structured output.
pub open spec fn spec_local_json(cmd: Command) -> bool {
    match cmd {
        Command::Stats { service: _, from: _, to: _, by: _, json } => json,
        Command::Summary { service: _, json } => json,
    }
}

/// Turns an invocation into its request plan. It fails exactly when no token
/// is resolvable — before any network activity — and otherwise fixes the
/// endpoint URL, the credential, and the output mode.
pub fn plan_request(
    cmd: &Command,
    format: Format,
    token_flag: Option<String>,
    token_env: Option<String>,
) -> (r: Result<Plan, CliError>)
    ensures
        match r {
            Ok(p) => {
                &&& spec_token(opt_view(token_flag), opt_view(token_env)) == Some(p.token@)
                &&& p.url@ == spec_command_url(*cmd)
                &&& p.structured == spec_use_json(format, spec_local_json(*cmd))
            },
            Err(e) => {
                &&& e is MissingToken
                &&& spec_token(opt_view(token_flag), opt_view(token_env)) is None
            },
        },
{
    let token = match resolve_token(token_flag, token_env) {
        Ok(t) => t,
        Err(e) => {
            return Err(e);
        },
    };
    match cmd {
        Command::Stats { service, from, to, by, json } => {
            let by_val = match by {
                Some(b) => b.clone(),
                None => String::from_str("minute"),
            };
            let url = build_stats_url(service, from, to, &by_val);
            Ok(Plan { url, token, structured: use_json(format, *json) })
        },
        Command::Summary { service, json } => {
            let url = build_summary_url(service);
            Ok(Plan { url, token, structured: use_json(format, *json) })
        },
    }
}

/// Selecting structured output with the subcommand flag and selecting it
/// with the global format are interchangeable: for any response document,
/// the stats renderer's output is the same under either choice.
pub proof fn lemma_json_flag_equivalence(doc: Doc)
    ensures
        spec_stats_output(doc, spec_use_json(Format::Json, false)) == spec_stats_output(
            doc,
            spec_use_json(Format::Text, true),
        ),
{
}

} // verus!
