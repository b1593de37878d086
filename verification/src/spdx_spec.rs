//! The SPDX 2.2 document schema, as plain data.
use vstd::prelude::*;

use crate::json::Json;

verus! {

/// The root of an SPDX document file.
#[derive(Debug, PartialEq, Eq)]
pub struct SpdxSchema {
    pub document: Option<Document>,
}

/// An SPDX document: creation metadata and the elements it describes.
#[derive(Debug, PartialEq, Eq)]
pub struct Document {
    pub annotations: Option<Vec<DocumentAnnotation>>,
    pub comment: Option<String>,
    pub creation_info: Option<CreationInfo>,
    pub data_license: Option<String>,
    pub describes_packages: Option<Vec<String>>,
    pub external_document_refs: Option<Vec<ExternalDocumentRef>>,
    pub files: Option<Vec<File>>,
    pub has_extracted_licensing_infos: Option<Vec<HasExtractedLicensingInfo>>,
    pub name: Option<String>,
    pub packages: Option<Vec<Package>>,
    pub relationships: Option<Vec<Relationship>>,
    pub revieweds: Option<Vec<Reviewed>>,
    pub snippets: Option<Vec<Snippet>>,
    pub spdx_version: Option<String>,
}

/// A comment that an agent made on the document.
#[derive(Debug, PartialEq, Eq)]
pub struct DocumentAnnotation {
    pub annotation_date: Option<String>,
    pub annotation_type: Option<AnnotationType>,
    pub annotator: Option<String>,
    pub comment: Option<String>,
}

/// When the document was created, and by whom.
#[derive(Debug, PartialEq, Eq)]
pub struct CreationInfo {
    pub comment: Option<String>,
    pub created: Option<String>,
    pub creators: Option<Vec<String>>,
    pub license_list_version: Option<String>,
}

/// A reference to another SPDX document, with its checksum.
#[derive(Debug, PartialEq, Eq)]
pub struct ExternalDocumentRef {
    pub checksum: Option<ExternalDocumentRefChecksum>,
    pub external_document_id: Option<String>,
    pub spdx_document: Option<String>,
}

/// The checksum of a referenced document.
#[derive(Debug, PartialEq, Eq)]
pub struct ExternalDocumentRefChecksum {
    pub algorithm: Option<Algorithm>,
    pub checksum_value: Option<String>,
}

/// A file that the document describes.
#[derive(Debug, PartialEq, Eq)]
pub struct File {
    pub annotations: Option<Vec<FileAnnotation>>,
    pub artifact_ofs: Option<Vec<Vec<(String, Option<Json>)>>>,
    pub attribution_texts: Option<Vec<String>>,
    pub checksums: Option<Vec<FileChecksum>>,
    pub comment: Option<String>,
    pub copyright_text: Option<String>,
    pub file_contributors: Option<Vec<String>>,
    pub file_dependencies: Option<Vec<String>>,
    pub file_name: Option<String>,
    pub file_types: Option<Vec<FileType>>,
    pub license_comments: Option<String>,
    pub license_info_from_files: Option<Vec<String>>,
    pub license_info_in_files: Option<Vec<String>>,
    pub name: Option<String>,
    pub notice_text: Option<String>,
}

/// A comment that an agent made on a file.
#[derive(Debug, PartialEq, Eq)]
pub struct FileAnnotation {
    pub annotation_date: Option<String>,
    pub annotation_type: Option<AnnotationType>,
    pub annotator: Option<String>,
    pub comment: Option<String>,
}

/// A checksum of a file.
#[derive(Debug, PartialEq, Eq)]
pub struct FileChecksum {
    pub algorithm: Option<Algorithm>,
    pub checksum_value: Option<String>,
}

/// A license text found in the described material that is not on the SPDX list.
#[derive(Debug, PartialEq, Eq)]
pub struct HasExtractedLicensingInfo {
    pub comment: Option<String>,
    pub extracted_text: Option<String>,
    pub license_id: Option<String>,
    pub name: Option<String>,
    pub see_alsos: Option<Vec<String>>,
}

/// A package that the document describes.
#[derive(Debug, PartialEq, Eq)]
pub struct Package {
    pub annotations: Option<Vec<PackageAnnotation>>,
    pub attribution_texts: Option<Vec<String>>,
    pub checksums: Option<Vec<PackageChecksum>>,
    pub comment: Option<String>,
    pub copyright_text: Option<String>,
    pub description: Option<String>,
    pub download_location: Option<String>,
    pub external_refs: Option<Vec<ExternalRef>>,
    pub files_analyzed: Option<bool>,
    pub has_files: Option<Vec<String>>,
    pub homepage: Option<String>,
    pub license_comments: Option<String>,
    pub license_info_from_files: Option<Vec<String>>,
    pub name: Option<String>,
    pub originator: Option<String>,
    pub package_file_name: Option<String>,
    pub package_verification_code: Option<PackageVerificationCode>,
    pub source_info: Option<String>,
    pub summary: Option<String>,
    pub supplier: Option<String>,
    pub version_info: Option<String>,
}

/// A comment that an agent made on a package.
#[derive(Debug, PartialEq, Eq)]
pub struct PackageAnnotation {
    pub annotation_date: Option<String>,
    pub annotation_type: Option<AnnotationType>,
    pub annotator: Option<String>,
    pub comment: Option<String>,
}

/// A checksum of a package.
#[derive(Debug, PartialEq, Eq)]
pub struct PackageChecksum {
    pub algorithm: Option<Algorithm>,
    pub checksum_value: Option<String>,
}

/// A reference from a package to information kept elsewhere.
#[derive(Debug, PartialEq, Eq)]
pub struct ExternalRef {
    pub comment: Option<String>,
    pub reference_category: Option<ReferenceCategory>,
    pub reference_locator: Option<String>,
    pub reference_type: Option<String>,
}

/// The verification code of a package, with the files left out of it.
#[derive(Debug, PartialEq, Eq)]
pub struct PackageVerificationCode {
    pub package_verification_code_excluded_files: Option<Vec<String>>,
    pub package_verification_code_value: Option<String>,
}

/// A relationship from one element to another.
#[derive(Debug, PartialEq, Eq)]
pub struct Relationship {
    pub comment: Option<String>,
    pub related_spdx_element: Option<String>,
    pub relationship_type: Option<RelationshipType>,
}

/// A record of a review of the document.
#[derive(Debug, PartialEq, Eq)]
pub struct Reviewed {
    pub comment: Option<String>,
    pub review_date: Option<String>,
    pub reviewer: Option<String>,
}

/// A part of a file that the document describes.
#[derive(Debug, PartialEq, Eq)]
pub struct Snippet {
    pub annotations: Option<Vec<SnippetAnnotation>>,
    pub attribution_texts: Option<Vec<String>>,
    pub comment: Option<String>,
    pub copyright_text: Option<String>,
    pub license_comments: Option<String>,
    pub license_info_from_files: Option<Vec<String>>,
    pub license_info_in_snippets: Option<Vec<String>>,
    pub name: Option<String>,
    pub ranges: Option<Vec<Range>>,
    pub snippet_from_file: Option<String>,
}

/// A comment that an agent made on a snippet.
#[derive(Debug, PartialEq, Eq)]
pub struct SnippetAnnotation {
    pub annotation_date: Option<String>,
    pub annotation_type: Option<AnnotationType>,
    pub annotator: Option<String>,
    pub comment: Option<String>,
}

/// The range of a snippet in its file.
#[derive(Debug, PartialEq, Eq)]
pub struct Range {
    pub end_pointer: Option<EndPointer>,
    pub start_pointer: Option<StartPointer>,
}

/// The end of a range.
#[derive(Debug, PartialEq, Eq)]
pub struct EndPointer {
    pub reference: Option<String>,
}

/// The start of a range.
#[derive(Debug, PartialEq, Eq)]
pub struct StartPointer {
    pub reference: Option<String>,
}

/// The kind of an annotation.
#[derive(Debug, PartialEq, Eq)]
pub enum AnnotationType {
    Other,
    Review,
}

/// The algorithm of a checksum.
#[derive(Debug, PartialEq, Eq)]
pub enum Algorithm {
    Md2,
    Md4,
    Md5,
    Md6,
    Sha1,
    Sha224,
    Sha256,
    Sha384,
    Sha512,
}

/// The kind of a file.
#[derive(Debug, PartialEq, Eq)]
pub enum FileType {
    Application,
    Archive,
    Audio,
    Binary,
    Documentation,
    Image,
    Other,
    Source,
    Spdx,
    Text,
    Video,
}

/// The category of an external reference.
#[derive(Debug, PartialEq, Eq)]
pub enum ReferenceCategory {
    Other,
    PackageManager,
    Security,
}

/// The kind of a relationship between two elements.
#[derive(Debug, PartialEq, Eq)]
pub enum RelationshipType {
    AncestorOf,
    BuildDependencyOf,
    BuildToolOf,
    ContainedBy,
    Contains,
    CopyOf,
    DataFileOf,
    DependencyManifestOf,
    DependencyOf,
    DependsOn,
    DescendantOf,
    DescribedBy,
    Describes,
    DevDependencyOf,
    DevToolOf,
    DistributionArtifact,
    DocumentationOf,
    DynamicLink,
    ExampleOf,
    ExpandedFromArchive,
    FileAdded,
    FileDeleted,
    FileModified,
    GeneratedFrom,
    Generates,
    HasPrerequisite,
    MetafileOf,
    OptionalComponentOf,
    OptionalDependencyOf,
    Other,
    PackageOf,
    PatchApplied,
    PatchFor,
    PrerequisiteFor,
    ProvidedDependencyOf,
    RuntimeDependencyOf,
    StaticLink,
    TestCaseOf,
    TestDependencyOf,
    TestOf,
    TestToolOf,
    VariantOf,
}


} // verus!
