//! What this crate takes on trust from the crates it calls: `semver` for
//! the grammar of versions, `toml_edit` for manifests. Nothing in this
//! file is proved; everything else in the crate is, from what is stated
//! here.

use vstd::prelude::*;
use crate::grammar::valid_prerelease;
use crate::version::{Version, VersionView};

verus! {

/// The error of the `semver` crate.
#[verifier::external_type_specification]
#[verifier::external_body]
pub struct ExSemverError(semver::Error);

/// Calls `semver::Version::parse` and copies the fields of what it returns.
/// Taken on trust: it accepts a text exactly when the text is what some
/// well-formed version renders to, and it returns that version. In the
/// words of its grammar: three numerals without leading zeros that fit in
/// 64 bits, joined by dots; then, if a hyphen follows, a pre-release tag
/// that is not empty; then, if a plus sign follows, build metadata that is
/// not empty; and nothing after that.
#[verifier::external_body]
pub(crate) fn semver_parse(text: &str) -> (r: Result<Version, semver::Error>)
    ensures
        r matches Ok(v) ==> v@.wf() && v@.render() == text@,
        r is Err ==> forall|w: VersionView| w.wf() ==> #[trigger] w.render() != text@,
{
    match semver::Version::parse(text) {
        Ok(v) => Ok(
            Version {
                major: v.major,
                minor: v.minor,
                patch: v.patch,
                pre: v.pre.as_str().to_owned(),
                build: v.build.as_str().to_owned(),
            },
        ),
        Err(e) => Err(e),
    }
}

/// Calls `semver::Prerelease::new` and copies the text of what it returns.
/// Taken on trust: it accepts exactly the texts of the pre-release grammar,
/// and an accepted tag reads as the text it was made from.
#[verifier::external_body]
pub(crate) fn semver_prerelease(raw: &str) -> (r: Result<String, semver::Error>)
    ensures
        r is Ok <==> valid_prerelease(raw@),
        r matches Ok(tag) ==> tag@ == raw@,
{
    match semver::Prerelease::new(raw) {
        Ok(pre) => Ok(pre.as_str().to_owned()),
        Err(e) => Err(e),
    }
}

/// The TOML document of the `toml_edit` crate.
#[verifier::external_type_specification]
#[verifier::external_body]
pub struct ExDocumentMut(toml_edit::DocumentMut);

/// The parse error of the `toml_edit` crate.
#[verifier::external_type_specification]
#[verifier::external_body]
pub struct ExTomlError(toml_edit::TomlError);

/// What a document holds under `version` in `package`: `None` where no
/// item stands there, `Some(None)` for an item that is no string, and the
/// string's characters else.
pub uninterp spec fn version_entry(doc: toml_edit::DocumentMut) -> Option<Option<Seq<char>>>;

/// What a document holds under `package`: `None` where no item stands
/// there, and else whether the item is a table or an inline table.
pub uninterp spec fn package_shape(doc: toml_edit::DocumentMut) -> Option<bool>;

/// The text that a document is written as.
pub uninterp spec fn document_text(doc: toml_edit::DocumentMut) -> Seq<char>;

/// What reading a text as a TOML document gives: `None` where the text is
/// no document, and else what the document holds as its version.
pub uninterp spec fn parsed_entry(text: Seq<char>) -> Option<Option<Option<Seq<char>>>>;

/// Calls `str::parse` for a `toml_edit::DocumentMut`. Taken on trust: whether
/// the text is a document, and what that document holds as its version, is
/// a function of the text alone.
#[verifier::external_body]
pub(crate) fn parse_document(text: &str) -> (r: Result<
    toml_edit::DocumentMut,
    toml_edit::TomlError,
>)
    ensures
        parsed_entry(text@) == match r {
            Ok(doc) => Some(version_entry(doc)),
            Err(_) => None,
        },
{
    text.parse::<toml_edit::DocumentMut>()
}

/// Calls `Table::get`, `Item::get` and `Item::as_str` of `toml_edit` to look
/// up `version` in `package`. Taken on trust: it hands out what the
/// document holds there, and an item stands there only where `package` is
/// a table or an inline table.
#[verifier::external_body]
pub(crate) fn read_entry(doc: &toml_edit::DocumentMut) -> (r: Option<Option<String>>)
    ensures
        r.deep_view() == version_entry(*doc),
        r is Some ==> package_shape(*doc) == Some(true),
{
    doc.get("package").and_then(|package| package.get("version")).map(
        |item| item.as_str().map(|text| text.to_owned()),
    )
}

/// Calls `Table::get` and `Item::is_table_like` of `toml_edit` to look at
/// `package`. Taken on trust: it hands out what the document holds there.
#[verifier::external_body]
pub(crate) fn probe_package(doc: &toml_edit::DocumentMut) -> (r: Option<bool>)
    ensures
        r == package_shape(*doc),
{
    doc.get("package").map(|package| package.is_table_like())
}

/// Assigns `toml_edit::value` of a text to `version` in `package`, through
/// the index operators of `toml_edit`, which make `package` an inline table
/// where it is not there and panic where it is something else than a table.
/// Taken on trust: the document then holds that text as its version.
#[verifier::external_body]
pub(crate) fn write_entry(doc: &mut toml_edit::DocumentMut, text: String)
    requires
        package_shape(*old(doc)) != Some(false),
    ensures
        version_entry(*final(doc)) == Some(Some(text@)),
        package_shape(*final(doc)) == Some(true),
{
    doc["package"]["version"] = toml_edit::value(text);
}

/// Calls `to_string` on a `toml_edit::DocumentMut`. Taken on trust: the text
/// is a function of the document alone.
#[verifier::external_body]
pub(crate) fn render_document(doc: &toml_edit::DocumentMut) -> (r: String)
    ensures
        r@ == document_text(*doc),
{
    doc.to_string()
}

} // verus!
