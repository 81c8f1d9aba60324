//! What a crate's manifest says of it.

use crate::document::{entry, text_at, DocumentModel};
use vstd::prelude::*;

verus! {

#[verifier::external_type_specification]
#[verifier::external_body]
pub struct ExTomlValue(toml::Value);

/// The document that `text` decodes to as TOML, or `None` where it is not TOML.
pub uninterp spec fn toml_document(text: Seq<char>) -> Option<DocumentModel>;

/// What a decoded TOML value holds.
pub uninterp spec fn toml_model(value: toml::Value) -> DocumentModel;

/// Decodes a TOML document.
///
/// Trusted: `toml::from_str` is a function of the text alone. It fails on text
/// that is not TOML, and otherwise returns the value that the text describes.
#[verifier::external_body]
fn toml_parse(text: &str) -> (r: Option<toml::Value>)
    ensures
        r matches Some(value) ==> toml_document(text@) == Some(toml_model(value)),
        r is None ==> toml_document(text@) is None,
{
    toml::from_str::<toml::Value>(text).ok()
}

/// Looks a key up in a TOML value.
///
/// Trusted: `toml::Value::get` with a string returns the entry under that key
/// where the value is a table that holds it, and `None` for a missing key and
/// for a value that is no table.
#[verifier::external_body]
fn toml_get<'a>(value: &'a toml::Value, key: &str) -> (r: Option<&'a toml::Value>)
    ensures
        r matches Some(inner) ==> entry(toml_model(*value), key@) == Some(toml_model(*inner)),
        r is None ==> entry(toml_model(*value), key@) is None,
{
    value.get(key)
}

/// Reads a TOML value as a string.
///
/// Trusted: `toml::Value::as_str` returns the string where the value is one,
/// and `None` for every other kind of value.
#[verifier::external_body]
fn toml_as_str<'a>(value: &'a toml::Value) -> (r: Option<&'a str>)
    ensures
        r matches Some(s) ==> toml_model(*value) == DocumentModel::Text(s@),
        r is None ==> !(toml_model(*value) is Text),
{
    value.as_str()
}

/// What the analysis of a crate reads in its manifest.
#[derive(Clone, Debug, PartialEq, Eq)]
pub struct Manifest {
    /// `package.name`, where it is a string.
    pub name: Option<String>,
    /// Whether there is a `lib` section.
    pub has_lib_section: bool,
    /// Whether there is a `bin` section.
    pub has_bin_section: bool,
}

/// A `Manifest` with its name as a character sequence.
pub struct ManifestModel {
    pub name: Option<Seq<char>>,
    pub has_lib_section: bool,
    pub has_bin_section: bool,
}

impl View for Manifest {
    type V = ManifestModel;

    open spec fn view(&self) -> ManifestModel {
        ManifestModel {
            name: match self.name {
                Some(name) => Some(name@),
                None => None,
            },
            has_lib_section: self.has_lib_section,
            has_bin_section: self.has_bin_section,
        }
    }
}

/// What a decoded manifest says.
pub open spec fn manifest_in(doc: DocumentModel) -> ManifestModel {
    ManifestModel {
        name: text_at(doc, "package"@, "name"@),
        has_lib_section: entry(doc, "lib"@) is Some,
        has_bin_section: entry(doc, "bin"@) is Some,
    }
}

/// What the manifest with the given text says, or `None` where the text is
/// not TOML.
pub open spec fn manifest_of(text: Seq<char>) -> Option<ManifestModel> {
    match toml_document(text) {
        Some(doc) => Some(manifest_in(doc)),
        None => None,
    }
}

/// The model of an optional manifest.
pub open spec fn manifest_view(m: Option<Manifest>) -> Option<ManifestModel> {
    match m {
        Some(manifest) => Some(manifest@),
        None => None,
    }
}

/// Decodes the text of a manifest and reads what the analysis needs.
pub fn read_manifest(text: &str) -> (r: Option<Manifest>)
    ensures
        manifest_view(r) == manifest_of(text@),
{
    let doc = match toml_parse(text) {
        Some(doc) => doc,
        None => { return None; },
    };
    let name = match toml_get(&doc, "package") {
        Some(package) => match toml_get(package, "name") {
            Some(leaf) => match toml_as_str(leaf) {
                Some(s) => Some(s.to_owned()),
                None => None,
            },
            None => None,
        },
        None => None,
    };
    let has_lib_section = toml_get(&doc, "lib").is_some();
    let has_bin_section = toml_get(&doc, "bin").is_some();
    Some(Manifest { name, has_lib_section, has_bin_section })
}

} // verus!
