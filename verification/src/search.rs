//! Addresses of documents and indexes in the Document Index.
use vstd::prelude::*;

verus! {

/// The address of a document.
#[derive(Debug, Clone, PartialEq, Eq)]
pub struct DocumentPath {
    pub namespace: String,
    pub collection: String,
    pub name: String,
}

/// The address of a search index.
#[derive(Debug, Clone, PartialEq, Eq)]
pub struct IndexPath {
    pub namespace: String,
    pub collection: String,
    pub index: String,
}

/// A value of a metadata field that search results can be filtered by.
#[derive(Debug, Clone, PartialEq, Eq)]
pub enum MetadataFieldValue {
    String(String),
    Integer(i64),
    Boolean(bool),
}

} // verus!
