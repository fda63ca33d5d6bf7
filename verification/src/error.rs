//! The ways in which a bump can fail.

use vstd::prelude::*;

verus! {

/// Why a version, a directive or a manifest was turned down.
#[derive(Clone, Copy, Debug, PartialEq, Eq, Structural)]
pub enum BumpError {
    /// A text that should be a semantic version is none.
    InvalidVersionString,
    /// The composed pre-release tag is not a legal identifier.
    PrereleaseFormatError,
    /// The existing pre-release tag has a dot that no counter follows.
    UnsupportedPrereleaseScheme,
    /// The manifest is not a TOML document.
    InvalidManifest,
    /// The manifest has no version that is a string.
    MissingVersion,
    /// No package carries the wanted name.
    PackageNotFound,
    /// The package wanted is no member of the workspace.
    NotWorkspaceMember,
}

impl BumpError {
    /// A sentence for the user.
    pub fn message(&self) -> (r: &'static str)
        ensures
            r@ == self.message_text(),
    {
        match self {
            BumpError::InvalidVersionString => "Invalid version",
            BumpError::PrereleaseFormatError => "Invalid prerelease identifier",
            BumpError::UnsupportedPrereleaseScheme => "This version scheme is not supported. Use format like `pre`, `dev` or `alpha.1` for prerelease symbol",
            BumpError::InvalidManifest => "Invalid manifest",
            BumpError::MissingVersion => "toml has no version",
            BumpError::PackageNotFound => "Package does not exist",
            BumpError::NotWorkspaceMember => "Package is not a workspace member",
        }
    }

    /// The characters of [`BumpError::message`].
    pub open spec fn message_text(&self) -> Seq<char> {
        match self {
            BumpError::InvalidVersionString => "Invalid version"@,
            BumpError::PrereleaseFormatError => "Invalid prerelease identifier"@,
            BumpError::UnsupportedPrereleaseScheme => "This version scheme is not supported. Use format like `pre`, `dev` or `alpha.1` for prerelease symbol"@,
            BumpError::InvalidManifest => "Invalid manifest"@,
            BumpError::MissingVersion => "toml has no version"@,
            BumpError::PackageNotFound => "Package does not exist"@,
            BumpError::NotWorkspaceMember => "Package is not a workspace member"@,
        }
    }
}

} // verus!
