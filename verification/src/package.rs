//! The manifest of a package, as far as its version goes.

use vstd::prelude::*;
use crate::error::BumpError;
use crate::outside::{
    document_text, package_shape, parse_document, parsed_entry, probe_package, read_entry,
    render_document, version_entry, write_entry,
};
use crate::version::{read_version, Version, VersionView};

verus! {

/// The version that an item under `version` gives, or why it gives none.
pub open spec fn version_in(entry: Option<Seq<char>>) -> Result<VersionView, BumpError> {
    match entry {
        Some(text) => read_version(text),
        None => Err(BumpError::MissingVersion),
    }
}

/// The manifest of a package.
pub struct Package(toml_edit::DocumentMut);

impl Package {
    /// What the manifest holds as its version: `None` where nothing stands
    /// under `version` in `package`, `Some(None)` for something that is no
    /// string, and the string's characters else.
    pub closed spec fn entry(&self) -> Option<Option<Seq<char>>> {
        version_entry(self.0)
    }

    /// Whether a version can be put into the manifest: `package` is a
    /// table, an inline table, or not there yet.
    pub closed spec fn takes_version(&self) -> bool {
        package_shape(self.0) != Some(false)
    }

    /// The text of the manifest.
    pub closed spec fn text(&self) -> Seq<char> {
        document_text(self.0)
    }

    /// The version that the manifest gives, or why it gives none.
    pub open spec fn version(&self) -> Result<VersionView, BumpError>
        recommends
            self.entry() is Some,
    {
        match self.entry() {
            Some(entry) => version_in(entry),
            None => Err(BumpError::MissingVersion),
        }
    }

    /// Reads a manifest from its text.
    pub fn read(text: &str) -> (r: Result<Package, BumpError>)
        ensures
            match r {
                Ok(package) => parsed_entry(text@) == Some(package.entry()),
                Err(e) => e == BumpError::InvalidManifest && parsed_entry(text@) is None,
            },
    {
        match parse_document(text) {
            Ok(doc) => Ok(Package(doc)),
            Err(_) => Err(BumpError::InvalidManifest),
        }
    }

    /// Whether something stands under `version` in `package`. Where it
    /// does, the manifest also takes a new version.
    pub fn has_version(&self) -> (r: bool)
        ensures
            r == self.entry() is Some,
            r ==> self.takes_version(),
    {
        read_entry(&self.0).is_some()
    }

    /// The version of the package.
    pub fn get_version(&self) -> (r: Result<Version, BumpError>)
        requires
            self.entry() is Some,
        ensures
            match self.version() {
                Ok(v) => r matches Ok(version) && version@ == v && version.wf(),
                Err(e) => r == Err::<Version, BumpError>(e),
            },
    {
        match read_entry(&self.0) {
            Some(Some(text)) => Version::parse(text.as_str()),
            _ => Err(BumpError::MissingVersion),
        }
    }

    /// Whether [`Package::set_version`] may be called.
    pub fn can_set_version(&self) -> (r: bool)
        ensures
            r == self.takes_version(),
    {
        match probe_package(&self.0) {
            Some(is_table) => is_table,
            None => true,
        }
    }

    /// Puts `version` into the manifest.
    pub fn set_version(&mut self, version: &Version)
        requires
            old(self).takes_version(),
        ensures
            final(self).entry() == Some(Some(version@.render())),
            final(self).takes_version(),
    {
        write_entry(&mut self.0, version.to_string());
    }

    /// The text of the manifest, as it is to be written.
    pub fn write(&self) -> (r: String)
        ensures
            r@ == self.text(),
    {
        render_document(&self.0)
    }
}

} // verus!
