//! What the export command line accepts, and what it tells the user.

use url::Url;
use vstd::prelude::*;

verus! {

/// How the package identifier argument is taken.
#[derive(Clone, Copy, Debug, PartialEq, Eq)]
pub struct PkgIdentArgOptions {
    /// Whether the argument may be given more than once.
    pub multiple: bool,
}

/// The help text of an argument that may be given more than once.
pub const HELP_MULTIPLE: &'static str =
    "One or more Habitat package identifiers (ex: acme/redis) and/or filepaths to a Habitat Artifact (ex: /home/acme-redis-3.0.7-21120102031201-x86_64-linux.hart)";

/// The help text of an argument that is given once.
pub const HELP_SINGLE: &'static str =
    "A Habitat package identifier (ex: acme/redis) and/or filepath to a Habitat Artifact (ex: /home/acme-redis-3.0.7-21120102031201-x86_64-linux.hart)";

/// The help text of the package identifier argument.
pub open spec fn pkg_ident_arg_help(multiple: bool) -> Seq<char> {
    if multiple {
        HELP_MULTIPLE@
    } else {
        HELP_SINGLE@
    }
}

impl PkgIdentArgOptions {
    /// The help text that the argument shows: it speaks of one or more
    /// identifiers where several may be given, and of one otherwise.
    pub fn help(&self) -> (text: &'static str)
        ensures
            text@ == pkg_ident_arg_help(self.multiple),
    {
        if self.multiple {
            HELP_MULTIPLE
        } else {
            HELP_SINGLE
        }
    }
}

/// The view of a verdict on an argument: acceptance, or the message that
/// rejects the value.
pub open spec fn verdict_view(verdict: Result<(), String>) -> Result<(), Seq<char>> {
    match verdict {
        Ok(_) => Ok(()),
        Err(message) => Err(message@),
    }
}

/// Whether `input` parses as an absolute URL.
pub uninterp spec fn url_parses(input: Seq<char>) -> bool;

/// Calls `url::Url::parse` and keeps only whether it succeeded.
///
/// Not proved: the contract takes on trust that the call returns, and that
/// its success depends on the characters of the input alone. It names that
/// result and claims nothing of which inputs parse.
#[verifier::external_body]
fn parses_as_url(input: &str) -> (parses: bool)
    ensures
        parses == url_parses(input@),
{
    Url::parse(input).is_ok()
}

/// The verdict on a URL argument, given whether it parses.
pub open spec fn url_verdict_of(val: Seq<char>, parses: bool) -> Result<(), Seq<char>> {
    if parses {
        Ok(())
    } else {
        Err("URL: '"@ + val + "' is not valid"@)
    }
}

/// Accepts a URL argument that parses, and rejects any other with a message
/// that quotes it.
pub fn url_verdict(val: &str, parses: bool) -> (verdict: Result<(), String>)
    ensures
        verdict_view(verdict) == url_verdict_of(val@, parses),
{
    if parses {
        return Ok(());
    }
    let mut message = String::from_str("URL: '");
    message.append(val);
    message.append("' is not valid");
    Err(message)
}

/// Validates a URL argument: it is accepted exactly if it parses as an
/// absolute URL.
pub fn valid_url(val: String) -> (verdict: Result<(), String>)
    ensures
        verdict_view(verdict) == url_verdict_of(val@, url_parses(val@)),
{
    let parses = parses_as_url(val.as_str());
    url_verdict(val.as_str(), parses)
}

/// The suffix by which a Habitat artifact file is known.
pub open spec fn hart_suffix() -> Seq<char> {
    ".hart"@
}

/// Whether the name is that of a Habitat artifact file.
fn names_hart(val: &str) -> (ends: bool)
    ensures
        ends == hart_suffix().is_suffix_of(val@),
{
    proof {
        reveal_strlit(".hart");
    }
    let n: usize = val.unicode_len();
    if n < 5 {
        return false;
    }
    let tail = String::from_str(val.substring_char(n - 5, n));
    tail == String::from_str(".hart")
}

/// The verdict on an argument that names a package identifier or an
/// artifact file, given whether a file of that name exists and what parsing
/// it as an identifier gave.
pub open spec fn ident_or_hart_verdict(
    val: Seq<char>,
    is_file: bool,
    ident: Result<(), Seq<char>>,
) -> Result<(), Seq<char>> {
    if is_file {
        Ok(())
    } else if hart_suffix().is_suffix_of(val) {
        Err("Habitat artifact file: '"@ + val + "' not found"@)
    } else {
        ident
    }
}

/// Validates an argument that names a package identifier or an artifact
/// file.
///
/// An existing file is accepted as it is. A missing one whose name ends in
/// `.hart` is reported as not found. Anything else has to be a package
/// identifier: `ident` carries the result of parsing it, and is the verdict.
pub fn valid_ident_or_hart(val: String, is_file: bool, ident: Result<(), String>) -> (verdict: Result<
    (),
    String,
>)
    ensures
        verdict_view(verdict) == ident_or_hart_verdict(val@, is_file, verdict_view(ident)),
{
    if is_file {
        return Ok(());
    }
    if names_hart(val.as_str()) {
        let mut message = String::from_str("Habitat artifact file: '");
        message.append(val.as_str());
        message.append("' not found");
        return Err(message);
    }
    ident
}

} // verus!
