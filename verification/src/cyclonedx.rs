//! The CycloneDX 1.3 bill of materials, as far as this crate fills it.
use vstd::prelude::*;

verus! {

/// The metadata of a CycloneDX document.
#[derive(Debug, PartialEq, Eq)]
pub struct Metadata {
    pub name: String,
    pub timestamp: String,
    pub authors: Vec<String>,
    pub data_license: String,
}

/// One component of a CycloneDX document.
#[derive(Debug, PartialEq, Eq)]
pub struct Component {
    pub version: String,
    pub description: Option<String>,
    pub homepage: Option<String>,
    pub licenses: Vec<String>,
}

/// A CycloneDX document.
#[derive(Debug, PartialEq, Eq)]
pub struct Bom {
    pub spec_version: String,
    pub metadata: Metadata,
    pub components: Vec<Component>,
}

} // verus!
