//! The assembler: the names of the materials, the catalog and the metadata of
//! the document, combined into a bill of materials.
use vstd::prelude::*;

use crate::catalog::Catalog;
use crate::closure::{drvs_model, Reference};
use crate::cyclonedx::{Bom as CycloneDXSbom, Component, Metadata};
use crate::error::StructuralAssumptionError;
use crate::nix::{Drv, DrvView, Package, PackageView};
use crate::normalize::{
    clone_optional, license_ids, normalize_homepage, spec_license_ids, spec_normalize_homepage,
};
use crate::spdx_spec::{CreationInfo, Document, Package as SPDXPackage, SpdxSchema};

verus! {

/// The formats a bill of materials can be written in.
#[derive(Debug, Clone, Copy, PartialEq, Eq, Structural)]
pub enum SBOMType {
    Spdx,
    CycloneDX,
}

/// What the caller says of the document as a whole.
#[derive(Debug, PartialEq, Eq)]
pub struct CommonSBOMInputs {
    pub sbom_type: SBOMType,
    pub name: String,
    pub timestamp: String,
    pub authors: Vec<String>,
    pub data_license: String,
}

/// What every format says of one package: the normalized package record.
#[derive(Debug, PartialEq, Eq)]
pub struct CommonPackageInfo {
    pub version: String,
    pub description: Option<String>,
    pub homepage: Option<String>,
    pub licenses: Vec<String>,
}

/// The mathematical value of a [`CommonPackageInfo`].
pub struct CommonPackageInfoView {
    pub version: Seq<char>,
    pub description: Option<Seq<char>>,
    pub homepage: Option<Seq<char>>,
    pub licenses: Seq<Seq<char>>,
}

/// A bill of materials in one of the formats.
#[derive(Debug, PartialEq, Eq)]
pub enum SBOM {
    Spdx(SpdxSchema),
    CycloneDX(CycloneDXSbom),
}

/// The value of the first entry of the environment under the given name.
pub open spec fn spec_env_value(env: Seq<(Seq<char>, Seq<char>)>, name: Seq<char>) -> Option<
    Seq<char>,
>
    decreases env.len(),
{
    if env.len() == 0 {
        None
    } else if env[0].0 == name {
        Some(env[0].1)
    } else {
        spec_env_value(env.drop_first(), name)
    }
}

/// The name that a derivation goes by in the catalog: the `name` of its
/// environment.
pub open spec fn spec_material_name(drv: DrvView) -> Option<Seq<char>> {
    spec_env_value(drv.env, "name"@)
}

/// Every derivation of the closure has a name.
pub open spec fn all_named(closure: Seq<(Reference, DrvView)>) -> bool {
    forall|i: int| 0 <= i < closure.len() ==> spec_material_name((#[trigger] closure[i]).1) is Some
}

/// The names of the derivations of a closure in which each has one, in
/// order.
pub open spec fn spec_material_names(closure: Seq<(Reference, DrvView)>) -> Seq<Seq<char>> {
    Seq::new(closure.len(), |i: int| spec_material_name(closure[i].1)->0)
}

/// The derivation at `index` is the first of the closure without a name.
pub open spec fn is_first_unnamed(closure: Seq<(Reference, DrvView)>, index: int) -> bool {
    &&& 0 <= index < closure.len()
    &&& spec_material_name(closure[index].1) is None
    &&& forall|i: int| 0 <= i < index ==> spec_material_name((#[trigger] closure[i]).1) is Some
}

/// A closure in which a derivation has no name has no list of names: the
/// derivation is not passed over.
pub proof fn lemma_unnamed_fails(closure: Seq<(Reference, DrvView)>, index: int)
    requires
        0 <= index < closure.len(),
        spec_material_name(closure[index].1) is None,
    ensures
        !all_named(closure),
        exists|first: int| is_first_unnamed(closure, first),
    decreases index,
{
    if exists|i: int| 0 <= i < index && spec_material_name((#[trigger] closure[i]).1) is None {
        let i = choose|i: int|
            0 <= i < index && spec_material_name((#[trigger] closure[i]).1) is None;
        lemma_unnamed_fails(closure, i);
    } else {
        assert(is_first_unnamed(closure, index));
    }
}

/// The normalized record of a catalog package: version and description as
/// they are, the homepage and the license identifiers resolved.
pub open spec fn spec_package_info(package: PackageView) -> CommonPackageInfoView {
    CommonPackageInfoView {
        version: package.version,
        description: package.meta.description,
        homepage: match package.meta.homepage {
            Some(raw) => spec_normalize_homepage(raw),
            None => None,
        },
        licenses: spec_license_ids(package.meta.license),
    }
}

/// The records of the materials that the catalog knows, in the order of the
/// materials. A material without a catalog entry leaves no trace; one that is
/// named twice is recorded twice.
pub open spec fn spec_assemble(
    materials: Seq<Seq<char>>,
    catalog: Map<Seq<char>, PackageView>,
) -> Seq<CommonPackageInfoView> {
    materials.filter_map(
        |name: Seq<char>|
            if catalog.contains_key(name) {
                Some(spec_package_info(catalog[name]))
            } else {
                None
            },
    )
}

/// A package without a license field has an empty list of license
/// identifiers.
pub proof fn lemma_no_license_no_identifiers(package: PackageView)
    requires
        package.meta.license is None,
    ensures
        spec_package_info(package).licenses == Seq::<Seq<char>>::empty(),
{
}

/// One more material adds its record to the end of the records if the
/// catalog knows it, and changes nothing if it does not: the records follow
/// the order of the materials, and a name that comes twice is recorded twice.
pub proof fn lemma_assemble_push(
    materials: Seq<Seq<char>>,
    name: Seq<char>,
    catalog: Map<Seq<char>, PackageView>,
)
    ensures
        spec_assemble(materials.push(name), catalog) == if catalog.contains_key(name) {
            spec_assemble(materials, catalog).push(spec_package_info(catalog[name]))
        } else {
            spec_assemble(materials, catalog)
        },
{
    assert(materials.push(name).drop_last() =~= materials);
}

/// `package` is the SPDX entry of the record `info`: it holds the version,
/// the description, the homepage and the license identifiers of the record,
/// and nothing else.
pub open spec fn is_spdx_package(package: SPDXPackage, info: CommonPackageInfoView) -> bool {
    &&& package.version_info.deep_view() == Some(info.version)
    &&& package.description.deep_view() == info.description
    &&& package.homepage.deep_view() == info.homepage
    &&& package.license_info_from_files.deep_view() == Some(info.licenses)
    &&& package.annotations is None
    &&& package.attribution_texts is None
    &&& package.checksums is None
    &&& package.comment is None
    &&& package.copyright_text is None
    &&& package.download_location is None
    &&& package.external_refs is None
    &&& package.files_analyzed is None
    &&& package.has_files is None
    &&& package.license_comments is None
    &&& package.name is None
    &&& package.originator is None
    &&& package.package_file_name is None
    &&& package.package_verification_code is None
    &&& package.source_info is None
    &&& package.summary is None
    &&& package.supplier is None
}

/// `packages` are the SPDX entries of the records `infos`, one for one.
pub open spec fn are_spdx_packages(
    packages: Seq<SPDXPackage>,
    infos: Seq<CommonPackageInfoView>,
) -> bool {
    &&& packages.len() == infos.len()
    &&& forall|i: int| 0 <= i < packages.len() ==> is_spdx_package(#[trigger] packages[i], infos[i])
}

/// `component` is the CycloneDX component of the record `info`.
pub open spec fn is_cyclonedx_component(component: Component, info: CommonPackageInfoView) -> bool {
    &&& component.version@ == info.version
    &&& component.description.deep_view() == info.description
    &&& component.homepage.deep_view() == info.homepage
    &&& component.licenses.deep_view() == info.licenses
}

/// `components` are the CycloneDX components of the records `infos`, one for
/// one.
pub open spec fn are_cyclonedx_components(
    components: Seq<Component>,
    infos: Seq<CommonPackageInfoView>,
) -> bool {
    &&& components.len() == infos.len()
    &&& forall|i: int|
        0 <= i < components.len() ==> is_cyclonedx_component(#[trigger] components[i], infos[i])
}

/// `bom` is the CycloneDX 1.3 document with the given name, creation time,
/// authors and data license, whose components are those of `infos`.
pub open spec fn is_cyclonedx_document(
    bom: CycloneDXSbom,
    name: Seq<char>,
    created: Seq<char>,
    authors: Seq<Seq<char>>,
    data_license: Seq<char>,
    infos: Seq<CommonPackageInfoView>,
) -> bool {
    &&& bom.spec_version@ == "1.3"@
    &&& bom.metadata.name@ == name
    &&& bom.metadata.timestamp@ == created
    &&& bom.metadata.authors.deep_view() == authors
    &&& bom.metadata.data_license@ == data_license
    &&& are_cyclonedx_components(bom.components@, infos)
}

/// `sbom` is the document in the format `sbom_type` with the given name,
/// creation time, authors and data license that lists the records `infos`.
pub open spec fn is_sbom(
    sbom: SBOM,
    sbom_type: SBOMType,
    name: Seq<char>,
    created: Seq<char>,
    authors: Seq<Seq<char>>,
    data_license: Seq<char>,
    infos: Seq<CommonPackageInfoView>,
) -> bool {
    match sbom_type {
        SBOMType::Spdx => sbom matches SBOM::Spdx(schema) && is_spdx_document(
            schema,
            name,
            created,
            authors,
            data_license,
            infos,
        ),
        SBOMType::CycloneDX => sbom matches SBOM::CycloneDX(bom) && is_cyclonedx_document(
            bom,
            name,
            created,
            authors,
            data_license,
            infos,
        ),
    }
}

/// `schema` is the SPDX 2.2 document with the given name, creation time,
/// creators and data license, whose packages are the entries of `infos`, and
/// which holds nothing else.
pub open spec fn is_spdx_document(
    schema: SpdxSchema,
    name: Seq<char>,
    created: Seq<char>,
    creators: Seq<Seq<char>>,
    data_license: Seq<char>,
    infos: Seq<CommonPackageInfoView>,
) -> bool {
    &&& schema.document matches Some(document)
    &&& document.spdx_version.deep_view() == Some("SPDX-2.2"@)
    &&& document.name.deep_view() == Some(name)
    &&& document.data_license.deep_view() == Some(data_license)
    &&& document.creation_info matches Some(creation_info)
    &&& creation_info.created.deep_view() == Some(created)
    &&& creation_info.creators.deep_view() == Some(creators)
    &&& creation_info.comment is None
    &&& creation_info.license_list_version is None
    &&& document.packages matches Some(packages)
    &&& are_spdx_packages(packages@, infos)
    &&& document.annotations is None
    &&& document.comment is None
    &&& document.describes_packages is None
    &&& document.external_document_refs is None
    &&& document.files is None
    &&& document.has_extracted_licensing_infos is None
    &&& document.relationships is None
    &&& document.revieweds is None
    &&& document.snippets is None
}

impl CommonSBOMInputs {
    /// The inputs of a document in the given format.
    pub fn new(
        sbom_type: SBOMType,
        name: String,
        timestamp: String,
        authors: Vec<String>,
        data_license: String,
    ) -> (inputs: CommonSBOMInputs)
        ensures
            inputs.sbom_type == sbom_type,
            inputs.name == name,
            inputs.timestamp == timestamp,
            inputs.authors == authors,
            inputs.data_license == data_license,
    {
        CommonSBOMInputs { sbom_type, name, timestamp, authors, data_license }
    }
}

impl CommonPackageInfo {
    /// The value of the record.
    pub open spec fn model(&self) -> CommonPackageInfoView {
        CommonPackageInfoView {
            version: self.version@,
            description: self.description.deep_view(),
            homepage: self.homepage.deep_view(),
            licenses: self.licenses.deep_view(),
        }
    }

    /// Normalizes a catalog package.
    pub fn from_package(package: &Package) -> (info: CommonPackageInfo)
        ensures
            info.model() == spec_package_info(package.model()),
    {
        let homepage = match &package.meta.homepage {
            Some(raw) => normalize_homepage(raw),
            None => None,
        };
        CommonPackageInfo {
            version: package.version.clone(),
            description: clone_optional(&package.meta.description),
            homepage,
            licenses: license_ids(&package.meta.license),
        }
    }

    /// The CycloneDX component of the record.
    pub fn into_cyclonedx(self) -> (component: Component)
        ensures
            is_cyclonedx_component(component, self.model()),
    {
        Component {
            version: self.version,
            description: self.description,
            homepage: self.homepage,
            licenses: self.licenses,
        }
    }

    /// The SPDX entry of the record.
    pub fn into_spdx(self) -> (package: SPDXPackage)
        ensures
            is_spdx_package(package, self.model()),
    {
        SPDXPackage {
            annotations: None,
            attribution_texts: None,
            checksums: None,
            comment: None,
            copyright_text: None,
            description: self.description,
            download_location: None,
            external_refs: None,
            files_analyzed: None,
            has_files: None,
            homepage: self.homepage,
            license_comments: None,
            license_info_from_files: Some(self.licenses),
            name: None,
            originator: None,
            package_file_name: None,
            package_verification_code: None,
            source_info: None,
            summary: None,
            supplier: None,
            version_info: Some(self.version),
        }
    }
}

/// A source of package metadata that can describe a package in SPDX terms.
pub trait SpdxPackages {
    /// The packages that can be described, each under its name.
    spec fn described(&self) -> Map<Seq<char>, PackageView>;

    /// The SPDX entry of the named package. A name that is not known gives
    /// `None`.
    fn get_spdx_package_info_if_exists(&self, package: String) -> (found: Option<SPDXPackage>)
        ensures
            match found {
                Some(entry) => self.described().contains_key(package@) && is_spdx_package(
                    entry,
                    spec_package_info(self.described()[package@]),
                ),
                None => !self.described().contains_key(package@),
            },
    ;
}

impl SpdxPackages for Catalog {
    open spec fn described(&self) -> Map<Seq<char>, PackageView> {
        self.model()
    }

    fn get_spdx_package_info_if_exists(&self, package: String) -> (found: Option<SPDXPackage>) {
        match self.get(package.as_str()) {
            Some(entry) => Some(CommonPackageInfo::from_package(entry).into_spdx()),
            None => None,
        }
    }
}

impl SpdxSchema {
    /// The SPDX document of the given name, creation time, creators and data
    /// license that lists the materials which `package_data` knows.
    pub fn new(
        name: String,
        created: String,
        creators: Vec<String>,
        data_license: String,
        materials: Vec<String>,
        package_data: Catalog,
    ) -> (schema: SpdxSchema)
        ensures
            is_spdx_document(
                schema,
                name@,
                created@,
                creators.deep_view(),
                data_license@,
                spec_assemble(materials.deep_view(), package_data.model()),
            ),
    {
        let creation_info = CreationInfo {
            comment: None,
            created: Some(created),
            creators: Some(creators),
            license_list_version: None,
        };

        let ghost names = materials.deep_view();
        let ghost catalog = package_data.model();
        let mut packages: Vec<SPDXPackage> = Vec::new();
        let mut i: usize = 0;
        while i < materials.len()
            invariant
                i <= materials.len(),
                names == materials.deep_view(),
                catalog == package_data.model(),
                are_spdx_packages(packages@, spec_assemble(names.take(i as int), catalog)),
            decreases materials.len() - i,
        {
            proof {
                assert(names.take(i + 1).drop_last() =~= names.take(i as int));
            }
            match package_data.get_spdx_package_info_if_exists(materials[i].clone()) {
                Some(entry) => {
                    packages.push(entry);
                },
                None => {},
            }
            i += 1;
        }
        proof {
            assert(names.take(i as int) =~= names);
        }

        let document = Document {
            annotations: None,
            comment: None,
            creation_info: Some(creation_info),
            data_license: Some(data_license),
            describes_packages: None,
            external_document_refs: None,
            files: None,
            has_extracted_licensing_infos: None,
            name: Some(name),
            packages: Some(packages),
            relationships: None,
            revieweds: None,
            snippets: None,
            spdx_version: Some("SPDX-2.2".to_owned()),
        };

        SpdxSchema { document: Some(document) }
    }
}

/// The name that the derivation goes by in the catalog.
pub fn material_name(drv: &Drv) -> (name: Option<String>)
    ensures
        name.deep_view() == spec_material_name(drv.model()),
{
    let wanted = "name".to_owned();
    let ghost env = drv.env.deep_view();
    let mut i: usize = 0;
    proof {
        assert(env.skip(0) =~= env);
    }
    while i < drv.env.len()
        invariant
            i <= drv.env.len(),
            env == drv.env.deep_view(),
            wanted@ == "name"@,
            spec_env_value(env, "name"@) == spec_env_value(env.skip(i as int), "name"@),
        decreases drv.env.len() - i,
    {
        proof {
            assert(env.skip(i as int).drop_first() =~= env.skip(i + 1));
        }
        if drv.env[i].0 == wanted {
            return Some(drv.env[i].1.clone());
        }
        i += 1;
    }
    None
}

/// The names of the materials: the name of each derivation of the closure,
/// in order. A derivation without a name fails the whole list; the error
/// says which derivation is the first without one.
pub fn material_names(closure: &Vec<(String, Drv)>) -> (names: Result<
    Vec<String>,
    StructuralAssumptionError,
>)
    ensures
        match names {
            Ok(names) => all_named(drvs_model(closure@)) && names.deep_view()
                == spec_material_names(drvs_model(closure@)),
            Err(error) => is_first_unnamed(drvs_model(closure@), error.index as int),
        },
{
    let ghost model = drvs_model(closure@);
    let mut names: Vec<String> = Vec::new();
    let mut i: usize = 0;
    while i < closure.len()
        invariant
            i <= closure.len(),
            model == drvs_model(closure@),
            names.len() == i,
            forall|k: int|
                0 <= k < i ==> spec_material_name((#[trigger] model[k]).1) == Some(names@[k]@),
        decreases closure.len() - i,
    {
        match material_name(&closure[i].1) {
            Some(name) => {
                names.push(name);
            },
            None => {
                return Err(StructuralAssumptionError { index: i });
            },
        }
        i += 1;
    }
    Ok(names)
}

/// The bill of materials of a closure: of the derivations of the closure
/// that the catalog knows by their names. A derivation without a name fails
/// the whole bill.
pub fn sbom_of_closure(
    common_sbom_inputs: CommonSBOMInputs,
    closure: &Vec<(String, Drv)>,
    packages_data: Catalog,
) -> (sbom: Result<SBOM, StructuralAssumptionError>)
    ensures
        match sbom {
            Ok(sbom) => all_named(drvs_model(closure@)) && is_sbom(
                sbom,
                common_sbom_inputs.sbom_type,
                common_sbom_inputs.name@,
                common_sbom_inputs.timestamp@,
                common_sbom_inputs.authors.deep_view(),
                common_sbom_inputs.data_license@,
                spec_assemble(spec_material_names(drvs_model(closure@)), packages_data.model()),
            ),
            Err(error) => is_first_unnamed(drvs_model(closure@), error.index as int),
        },
{
    match material_names(closure) {
        Ok(materials) => Ok(generate_sbom(common_sbom_inputs, materials, packages_data)),
        Err(error) => Err(error),
    }
}

/// The bill of materials of the materials that `packages_data` knows, in the
/// format that the inputs ask for.
pub fn generate_sbom(
    common_sbom_inputs: CommonSBOMInputs,
    materials: Vec<String>,
    packages_data: Catalog,
) -> (sbom: SBOM)
    ensures
        is_sbom(
            sbom,
            common_sbom_inputs.sbom_type,
            common_sbom_inputs.name@,
            common_sbom_inputs.timestamp@,
            common_sbom_inputs.authors.deep_view(),
            common_sbom_inputs.data_license@,
            spec_assemble(materials.deep_view(), packages_data.model()),
        ),
{
    match common_sbom_inputs.sbom_type {
        SBOMType::Spdx => SBOM::Spdx(
            generate_spdx_sbom(common_sbom_inputs, materials, packages_data),
        ),
        SBOMType::CycloneDX => SBOM::CycloneDX(
            generate_cyclonedx_sbom(common_sbom_inputs, materials, packages_data),
        ),
    }
}

/// The SPDX document of the inputs that lists the materials which
/// `packages_data` knows.
pub fn generate_spdx_sbom(
    common_sbom_inputs: CommonSBOMInputs,
    materials: Vec<String>,
    packages_data: Catalog,
) -> (schema: SpdxSchema)
    ensures
        is_spdx_document(
            schema,
            common_sbom_inputs.name@,
            common_sbom_inputs.timestamp@,
            common_sbom_inputs.authors.deep_view(),
            common_sbom_inputs.data_license@,
            spec_assemble(materials.deep_view(), packages_data.model()),
        ),
{
    SpdxSchema::new(
        common_sbom_inputs.name,
        common_sbom_inputs.timestamp,
        common_sbom_inputs.authors,
        common_sbom_inputs.data_license,
        materials,
        packages_data,
    )
}

/// The CycloneDX document of the inputs that lists the materials which
/// `packages_data` knows.
pub fn generate_cyclonedx_sbom(
    common_sbom_inputs: CommonSBOMInputs,
    materials: Vec<String>,
    packages_data: Catalog,
) -> (bom: CycloneDXSbom)
    ensures
        is_cyclonedx_document(
            bom,
            common_sbom_inputs.name@,
            common_sbom_inputs.timestamp@,
            common_sbom_inputs.authors.deep_view(),
            common_sbom_inputs.data_license@,
            spec_assemble(materials.deep_view(), packages_data.model()),
        ),
{
    let ghost names = materials.deep_view();
    let ghost catalog = packages_data.model();
    let mut components: Vec<Component> = Vec::new();
    let mut i: usize = 0;
    while i < materials.len()
        invariant
            i <= materials.len(),
            names == materials.deep_view(),
            catalog == packages_data.model(),
            are_cyclonedx_components(components@, spec_assemble(names.take(i as int), catalog)),
        decreases materials.len() - i,
    {
        proof {
            assert(names.take(i + 1).drop_last() =~= names.take(i as int));
        }
        match packages_data.get(materials[i].as_str()) {
            Some(entry) => {
                components.push(CommonPackageInfo::from_package(entry).into_cyclonedx());
            },
            None => {},
        }
        i += 1;
    }
    proof {
        assert(names.take(i as int) =~= names);
    }
    CycloneDXSbom {
        spec_version: "1.3".to_owned(),
        metadata: Metadata {
            name: common_sbom_inputs.name,
            timestamp: common_sbom_inputs.timestamp,
            authors: common_sbom_inputs.authors,
            data_license: common_sbom_inputs.data_license,
        },
        components,
    }
}

} // verus!
