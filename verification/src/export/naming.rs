//! How an exported image is named and tagged.

use crate::export::matches::{str_view, value_in, Matches};
use vstd::prelude::*;

verus! {

/// An image naming policy.
///
/// This is a value struct which captures the naming and tagging intentions
/// for an image.
#[derive(Debug)]
pub struct Naming<'a> {
    /// An optional custom image name which would override a computed default
    /// value.
    pub custom_image_name: Option<&'a str>,
    /// Whether or not to tag the image with a latest value.
    pub latest_tag: bool,
    /// Whether or not to tag the image with a value containing a version from
    /// a Package Identifier.
    pub version_tag: bool,
    /// Whether or not to tag the image with a value containing a version and
    /// release from a Package Identifier.
    pub version_release_tag: bool,
    /// An optional custom tag value for the image.
    pub custom_tag: Option<&'a str>,
}

/// What a [`Naming`] stands for.
pub struct NamingView {
    pub custom_image_name: Option<Seq<char>>,
    pub latest_tag: bool,
    pub version_tag: bool,
    pub version_release_tag: bool,
    pub custom_tag: Option<Seq<char>>,
}

impl<'a> View for Naming<'a> {
    type V = NamingView;

    open spec fn view(&self) -> NamingView {
        NamingView {
            custom_image_name: str_view(self.custom_image_name),
            latest_tag: self.latest_tag,
            version_tag: self.version_tag,
            version_release_tag: self.version_release_tag,
            custom_tag: str_view(self.custom_tag),
        }
    }
}

/// The naming policy that a command line asks for: every tag is on unless
/// its `NO_TAG_` flag is present, and the custom name and tag are the values
/// given, if any.
pub open spec fn naming_of(matches: Map<Seq<char>, Option<Seq<char>>>) -> NamingView {
    NamingView {
        custom_image_name: value_in(matches, "IMAGE_NAME"@),
        latest_tag: !matches.contains_key("NO_TAG_LATEST"@),
        version_tag: !matches.contains_key("NO_TAG_VERSION"@),
        version_release_tag: !matches.contains_key("NO_TAG_VERSION_RELEASE"@),
        custom_tag: value_in(matches, "TAG_CUSTOM"@),
    }
}

impl<'a> Naming<'a> {
    /// Creates a `Naming` from cli arguments.
    pub fn new_from_cli_matches(m: &'a Matches) -> (naming: Self)
        ensures
            naming@ == naming_of(m@),
    {
        Naming {
            custom_image_name: m.value_of("IMAGE_NAME"),
            latest_tag: !m.is_present("NO_TAG_LATEST"),
            version_tag: !m.is_present("NO_TAG_VERSION"),
            version_release_tag: !m.is_present("NO_TAG_VERSION_RELEASE"),
            custom_tag: m.value_of("TAG_CUSTOM"),
        }
    }
}

} // verus!
