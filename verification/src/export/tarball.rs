//! The file name under which a package is exported.

use regex::Regex;
use vstd::prelude::*;

verus! {

/// The pattern by which an argument is taken for a package identifier:
/// something, a slash, something.
pub const SLASH_SYNTAX: &'static str = ".+/.+";

/// Origin and name of a package identifier that was parsed.
#[derive(Clone, Debug, PartialEq, Eq)]
pub struct IdentParts {
    pub origin: String,
    pub name: String,
}

/// What an [`IdentParts`] stands for.
pub struct IdentPartsView {
    pub origin: Seq<char>,
    pub name: Seq<char>,
}

impl View for IdentParts {
    type V = IdentPartsView;

    open spec fn view(&self) -> IdentPartsView {
        IdentPartsView { origin: self.origin@, name: self.name@ }
    }
}

/// The view of a parse that may have failed.
pub open spec fn parts_view(ident: Option<IdentParts>) -> Option<IdentPartsView> {
    match ident {
        Some(parts) => Some(parts@),
        None => None,
    }
}

/// Whether `pattern` is a regular expression that matches somewhere in
/// `text`.
pub uninterp spec fn regex_matches(pattern: Seq<char>, text: Seq<char>) -> bool;

/// Compiles the pattern with `regex::Regex::new` and searches the text with
/// `Regex::is_match`. A pattern that does not compile matches nothing.
///
/// Not proved: the contract takes on trust that both calls return, and that
/// the answer depends on the characters of pattern and text alone. It names
/// that answer and claims nothing of what matches.
#[verifier::external_body]
fn matches_pattern(pattern: &str, text: &str) -> (matches: bool)
    ensures
        matches == regex_matches(pattern@, text@),
{
    match Regex::new(pattern) {
        Ok(regex) => regex.is_match(text),
        Err(_) => false,
    }
}

/// The tarball's name for an identifier: origin and name, joined by a
/// hyphen, with `.tar.gz` behind.
pub open spec fn ident_tarball(parts: IdentPartsView) -> Seq<char> {
    parts.origin + "-"@ + parts.name + ".tar.gz"@
}

/// The tarball's name for an argument: that of its identifier where the
/// argument has the syntax of one, and the argument itself otherwise.
pub open spec fn tarball_name(
    hart_to_package: Seq<char>,
    slash_syntax: bool,
    ident: Option<IdentPartsView>,
) -> Seq<char> {
    if slash_syntax {
        ident_tarball(ident->0)
    } else {
        hart_to_package
    }
}

/// Names the tarball, given whether the argument has the syntax of a package
/// identifier and what parsing it as one gave.
pub fn name_of_tarball(hart_to_package: &str, slash_syntax: bool, ident: Option<IdentParts>) -> (name:
    String)
    requires
        slash_syntax ==> ident is Some,
    ensures
        name@ == tarball_name(hart_to_package@, slash_syntax, parts_view(ident)),
{
    match ident {
        Some(parts) if slash_syntax => {
            let mut name = parts.origin;
            name.append("-");
            name.append(parts.name.as_str());
            name.append(".tar.gz");
            name
        },
        _ => String::from_str(hart_to_package),
    }
}

/// Names the tarball for an argument. `ident` is what parsing the argument
/// as a package identifier gave; an argument with the syntax of an
/// identifier has to have parsed.
pub fn determine_name_of_tarball(hart_to_package: &str, ident: Option<IdentParts>) -> (name: String)
    requires
        regex_matches(SLASH_SYNTAX@, hart_to_package@) ==> ident is Some,
    ensures
        name@ == tarball_name(
            hart_to_package@,
            regex_matches(SLASH_SYNTAX@, hart_to_package@),
            parts_view(ident),
        ),
{
    let slash_syntax = matches_pattern(SLASH_SYNTAX, hart_to_package);
    name_of_tarball(hart_to_package, slash_syntax, ident)
}

/// Names the tarball for an argument, or returns `None` for one that has the
/// syntax of a package identifier and did not parse as one.
pub fn try_name_of_tarball(hart_to_package: &str, ident: Option<IdentParts>) -> (name: Option<String>)
    ensures
        match name {
            Some(n) => n@ == tarball_name(
                hart_to_package@,
                regex_matches(SLASH_SYNTAX@, hart_to_package@),
                parts_view(ident),
            ),
            None => true,
        },
        name is None <==> regex_matches(SLASH_SYNTAX@, hart_to_package@) && ident is None,
{
    if ident.is_none() && matches_pattern(SLASH_SYNTAX, hart_to_package) {
        return None;
    }
    Some(determine_name_of_tarball(hart_to_package, ident))
}

} // verus!
