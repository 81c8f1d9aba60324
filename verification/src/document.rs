//! The model of a structured document, as a TOML or a JSON decoder hands it out.

use vstd::prelude::*;

verus! {

/// A structured document, as far as this crate reads one: a string, a table
/// from keys to documents, or any other value (a number, a list, ...).
pub enum DocumentModel {
    Text(Seq<char>),
    Table(Map<Seq<char>, DocumentModel>),
    Other,
}

/// The document under `key`, where `doc` is a table that holds the key.
pub open spec fn entry(doc: DocumentModel, key: Seq<char>) -> Option<DocumentModel> {
    match doc {
        DocumentModel::Table(entries) => if entries.contains_key(key) {
            Some(entries[key])
        } else {
            None
        },
        _ => None,
    }
}

/// The string that `doc` is, if it is one.
pub open spec fn text_of(doc: DocumentModel) -> Option<Seq<char>> {
    match doc {
        DocumentModel::Text(s) => Some(s),
        _ => None,
    }
}

/// The string under `key` in the table under `table`, with both present.
pub open spec fn text_at(doc: DocumentModel, table: Seq<char>, key: Seq<char>) -> Option<
    Seq<char>,
> {
    match entry(doc, table) {
        Some(inner) => match entry(inner, key) {
            Some(leaf) => text_of(leaf),
            None => None,
        },
        None => None,
    }
}

} // verus!
