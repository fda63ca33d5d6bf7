//! Semantic-version bumping: a directive and an optional pre-release label
//! are applied to a version, and the outcome is stated by contract.

pub mod config;
pub mod error;
pub mod grammar;
pub mod laws;
pub mod modifier;
pub mod outside;
pub mod package;
pub mod prerelease;
pub mod text;
pub mod version;

use vstd::prelude::*;

pub use crate::config::{Arguments, Config, PackageInfo};
pub use crate::error::BumpError;
pub use crate::modifier::{BumpKind, VersionModifier};
pub use crate::package::Package;
pub use crate::version::{Version, VersionExt};

use crate::modifier::ModifierView;
use crate::outside::parsed_entry;
use crate::package::version_in;
use crate::version::{read_version, VersionView};

verus! {

/// What a bump makes of a version that may not be there: `None` where a
/// number would overflow, else the new version or the reason why there is
/// none.
pub open spec fn bump_of(m: ModifierView, current: Result<VersionView, BumpError>) -> Option<
    Result<VersionView, BumpError>,
> {
    match current {
        Ok(v) => if m.in_range(v) {
            Some(m.outcome(v))
        } else {
            None
        },
        Err(e) => Some(Err(e)),
    }
}

/// Bumps the version that `current` writes and hands back the text of the
/// new version. `None` says that a number of the version is at its limit
/// and nothing was computed.
pub fn bump(modifier: &VersionModifier, current: &str) -> (r: Option<Result<String, BumpError>>)
    ensures
        match bump_of(modifier@, read_version(current@)) {
            None => r is None,
            Some(Ok(next)) => r matches Some(Ok(text)) && text@ == next.render(),
            Some(Err(e)) => r == Some(Err::<String, BumpError>(e)),
        },
{
    let mut version = match Version::parse(current) {
        Ok(version) => version,
        Err(e) => {
            return Some(Err(e));
        },
    };
    if !modifier.can_apply(&version) {
        return None;
    }
    match modifier.apply(&mut version) {
        Ok(()) => Some(Ok(version.to_string())),
        Err(e) => Some(Err(e)),
    }
}

/// Bumps the version in a manifest. `None` says that nothing stands where
/// the version should, or that a number of the version is at its limit;
/// the manifest is then as it was, as it is after an error.
pub fn bump_package(modifier: &VersionModifier, package: &mut Package) -> (r: Option<
    Result<(), BumpError>,
>)
    ensures
        match if old(package).entry() is Some {
            bump_of(modifier@, old(package).version())
        } else {
            None
        } {
            None => r is None && *final(package) == *old(package),
            Some(Ok(next)) => r == Some(Ok::<(), BumpError>(())) && final(package).entry() == Some(
                Some(next.render()),
            ),
            Some(Err(e)) => r == Some(Err::<(), BumpError>(e)) && *final(package) == *old(package),
        },
{
    if !package.has_version() {
        return None;
    }
    let mut version = match package.get_version() {
        Ok(version) => version,
        Err(e) => {
            return Some(Err(e));
        },
    };
    if !modifier.can_apply(&version) {
        return None;
    }
    match modifier.apply(&mut version) {
        Ok(()) => {
            package.set_version(&version);
            Some(Ok(()))
        },
        Err(e) => Some(Err(e)),
    }
}

/// Bumps the version in the text of a manifest and hands back the text of
/// the new manifest: that of a manifest whose version is the new one.
/// `None` is given as by [`bump_package`].
pub fn apply(modifier: &VersionModifier, manifest: &str) -> (r: Option<Result<String, BumpError>>)
    ensures
        match parsed_entry(manifest@) {
            None => r == Some(Err::<String, BumpError>(BumpError::InvalidManifest)),
            Some(None) => r is None,
            Some(Some(entry)) => match bump_of(modifier@, version_in(entry)) {
                None => r is None,
                Some(Ok(next)) => r matches Some(Ok(text)) && exists|after: Package|
                    after.entry() == Some(Some(next.render())) && #[trigger] after.text() == text@,
                Some(Err(e)) => r == Some(Err::<String, BumpError>(e)),
            },
        },
{
    let mut package = match Package::read(manifest) {
        Ok(package) => package,
        Err(e) => {
            return Some(Err(e));
        },
    };
    match bump_package(modifier, &mut package) {
        None => None,
        Some(Ok(())) => Some(Ok(package.write())),
        Some(Err(e)) => Some(Err(e)),
    }
}

} // verus!
