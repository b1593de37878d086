use nixbom::catalog::Catalog;
use nixbom::cyclonedx::{Bom, Component, Metadata};
use nixbom::error::StructuralAssumptionError;
use nixbom::nix::{Drv, Homepages, License, Licenses, Meta, Package};
use nixbom::sbom::{
    generate_cyclonedx_sbom, generate_sbom, generate_spdx_sbom, material_name, material_names,
    sbom_of_closure, CommonPackageInfo, CommonSBOMInputs, SBOMType, SpdxPackages, SBOM,
};
use nixbom::spdx_spec::{CreationInfo, Document, Package as SpdxPackage, SpdxSchema};

fn text(value: &str) -> String {
    value.to_string()
}

fn package(name: &str, version: &str, meta: Meta) -> Package {
    Package { name: text(name), pname: text(name), version: text(version), meta, extra: vec![] }
}

fn bare() -> Meta {
    Meta { license: None, description: None, homepage: None, extra: vec![] }
}

fn pkg_a() -> Package {
    package(
        "pkgA",
        "1.0",
        Meta {
            license: Some(Licenses::LicenseList(vec![
                License {
                    full_name: Some(text("MIT License")),
                    short_name: None,
                    spdx_id: Some(text("MIT")),
                    url: None,
                },
                License { full_name: None, short_name: None, spdx_id: None, url: None },
            ])),
            description: Some(text("the first package")),
            homepage: Some(Homepages::HomepageList(vec![text("http://a"), text("http://b")])),
            extra: vec![],
        },
    )
}

fn catalog_of(packages: Vec<Package>) -> Catalog {
    let mut catalog = Catalog::new();
    for package in packages {
        catalog.insert(package);
    }
    catalog
}

fn spdx_package(
    version: &str,
    description: Option<&str>,
    homepage: Option<&str>,
    licenses: &[&str],
) -> SpdxPackage {
    SpdxPackage {
        annotations: None,
        attribution_texts: None,
        checksums: None,
        comment: None,
        copyright_text: None,
        description: description.map(text),
        download_location: None,
        external_refs: None,
        files_analyzed: None,
        has_files: None,
        homepage: homepage.map(text),
        license_comments: None,
        license_info_from_files: Some(licenses.iter().map(|license| text(license)).collect()),
        name: None,
        originator: None,
        package_file_name: None,
        package_verification_code: None,
        source_info: None,
        summary: None,
        supplier: None,
        version_info: Some(text(version)),
    }
}

fn spdx_document(packages: Vec<SpdxPackage>) -> SpdxSchema {
    SpdxSchema {
        document: Some(Document {
            annotations: None,
            comment: None,
            creation_info: Some(CreationInfo {
                comment: None,
                created: Some(text("2021-06-01 12:00:00 UTC")),
                creators: Some(vec![text("Ada"), text("Grace")]),
                license_list_version: None,
            }),
            data_license: Some(text("CC0-1.0")),
            describes_packages: None,
            external_document_refs: None,
            files: None,
            has_extracted_licensing_infos: None,
            name: Some(text("my project")),
            packages: Some(packages),
            relationships: None,
            revieweds: None,
            snippets: None,
            spdx_version: Some(text("SPDX-2.2")),
        }),
    }
}

fn new_document(materials: &[&str], catalog: Catalog) -> SpdxSchema {
    SpdxSchema::new(
        text("my project"),
        text("2021-06-01 12:00:00 UTC"),
        vec![text("Ada"), text("Grace")],
        text("CC0-1.0"),
        materials.iter().map(|name| text(name)).collect(),
        catalog,
    )
}

fn inputs(sbom_type: SBOMType) -> CommonSBOMInputs {
    CommonSBOMInputs::new(
        sbom_type,
        text("my project"),
        text("2021-06-01 12:00:00 UTC"),
        vec![text("Ada"), text("Grace")],
        text("CC0-1.0"),
    )
}

fn drv_with_env(env: &[(&str, &str)]) -> Drv {
    Drv {
        outputs: vec![],
        input_srcs: vec![],
        input_drvs: vec![],
        system: text("x86_64-linux"),
        builder: text("/bin/sh"),
        args: vec![],
        env: env.iter().map(|(name, value)| (text(name), text(value))).collect(),
        extra: vec![],
    }
}

#[test]
fn material_without_catalog_entry_is_left_out() {
    let document = new_document(&["pkgA", "pkgB"], catalog_of(vec![pkg_a()]));
    assert_eq!(
        document,
        spdx_document(vec![spdx_package(
            "1.0",
            Some("the first package"),
            Some("http://a"),
            &["MIT"]
        )])
    );
}

#[test]
fn package_without_license_field_has_an_empty_license_list() {
    let catalog = catalog_of(vec![package("plain", "0.1", bare())]);
    let entry = catalog.get_spdx_package_info_if_exists(text("plain")).unwrap();
    assert_eq!(entry.license_info_from_files, Some(vec![]));
    assert_eq!(entry, spdx_package("0.1", None, None, &[]));
}

#[test]
fn unknown_package_has_no_spdx_entry() {
    let catalog = catalog_of(vec![pkg_a()]);
    assert_eq!(catalog.get_spdx_package_info_if_exists(text("pkgB")), None);
    assert_eq!(Catalog::new().get_spdx_package_info_if_exists(text("pkgA")), None);
}

#[test]
fn package_record_is_normalized() {
    let info = CommonPackageInfo::from_package(&pkg_a());
    assert_eq!(
        info,
        CommonPackageInfo {
            version: text("1.0"),
            description: Some(text("the first package")),
            homepage: Some(text("http://a")),
            licenses: vec![text("MIT")],
        }
    );
    assert_eq!(
        info.into_spdx(),
        spdx_package("1.0", Some("the first package"), Some("http://a"), &["MIT"])
    );
}

#[test]
fn materials_keep_their_order_and_their_repetitions() {
    let catalog = catalog_of(vec![
        package("one", "1", bare()),
        package("two", "2", bare()),
    ]);
    let document = new_document(&["two", "missing", "one", "two"], catalog);
    assert_eq!(
        document,
        spdx_document(vec![
            spdx_package("2", None, None, &[]),
            spdx_package("1", None, None, &[]),
            spdx_package("2", None, None, &[]),
        ])
    );
}

#[test]
fn document_without_materials_lists_no_package() {
    assert_eq!(new_document(&[], catalog_of(vec![pkg_a()])), spdx_document(vec![]));
    assert_eq!(new_document(&["pkgA"], Catalog::new()), spdx_document(vec![]));
}

#[test]
fn spdx_is_generated_for_spdx_inputs() {
    let materials = vec![text("pkgA"), text("pkgB")];
    let expected =
        spdx_document(vec![spdx_package("1.0", Some("the first package"), Some("http://a"), &["MIT"])]);
    assert_eq!(
        generate_spdx_sbom(inputs(SBOMType::Spdx), materials.clone(), catalog_of(vec![pkg_a()])),
        expected
    );
    assert_eq!(
        generate_sbom(inputs(SBOMType::Spdx), materials, catalog_of(vec![pkg_a()])),
        SBOM::Spdx(expected)
    );
}

#[test]
fn cyclonedx_is_generated_for_cyclonedx_inputs() {
    let materials = vec![text("pkgB"), text("pkgA")];
    let expected = Bom {
        spec_version: text("1.3"),
        metadata: Metadata {
            name: text("my project"),
            timestamp: text("2021-06-01 12:00:00 UTC"),
            authors: vec![text("Ada"), text("Grace")],
            data_license: text("CC0-1.0"),
        },
        components: vec![Component {
            version: text("1.0"),
            description: Some(text("the first package")),
            homepage: Some(text("http://a")),
            licenses: vec![text("MIT")],
        }],
    };
    assert_eq!(
        generate_cyclonedx_sbom(
            inputs(SBOMType::CycloneDX),
            materials.clone(),
            catalog_of(vec![pkg_a()])
        ),
        expected
    );
    assert_eq!(
        generate_sbom(inputs(SBOMType::CycloneDX), materials, catalog_of(vec![pkg_a()])),
        SBOM::CycloneDX(expected)
    );
}

#[test]
fn material_name_is_the_name_of_the_environment() {
    let drv = drv_with_env(&[("out", "/nix/store/x"), ("name", "hello-2.10"), ("name", "other")]);
    assert_eq!(material_name(&drv), Some(text("hello-2.10")));
    assert_eq!(material_name(&drv_with_env(&[("pname", "hello")])), None);
    assert_eq!(material_name(&drv_with_env(&[])), None);
}

#[test]
fn material_names_follow_the_closure() {
    let closure = vec![
        (text("b.drv"), drv_with_env(&[("name", "b-1")])),
        (text("a.drv"), drv_with_env(&[("name", "a-2")])),
        (text("c.drv"), drv_with_env(&[("name", "b-1")])),
    ];
    assert_eq!(material_names(&closure), Ok(vec![text("b-1"), text("a-2"), text("b-1")]));
    assert_eq!(material_names(&vec![]), Ok(vec![]));
}

#[test]
fn closure_member_without_name_fails_the_run() {
    let closure = vec![
        (text("a.drv"), drv_with_env(&[("name", "a-2")])),
        (text("tool.drv"), drv_with_env(&[("out", "/nix/store/tool")])),
        (text("b.drv"), drv_with_env(&[("name", "b-1")])),
        (text("other.drv"), drv_with_env(&[])),
    ];
    assert_eq!(material_names(&closure), Err(StructuralAssumptionError { index: 1 }));
    assert_eq!(
        StructuralAssumptionError { index: 1 }.message(),
        "a derivation of the closure has no name in its environment"
    );
}

#[test]
fn bill_of_a_closure_lists_its_derivations_by_their_names() {
    let closure = vec![
        (text("b.drv"), drv_with_env(&[("name", "pkgB")])),
        (text("a.drv"), drv_with_env(&[("name", "pkgA")])),
    ];
    assert_eq!(
        sbom_of_closure(inputs(SBOMType::Spdx), &closure, catalog_of(vec![pkg_a()])),
        Ok(SBOM::Spdx(spdx_document(vec![spdx_package(
            "1.0",
            Some("the first package"),
            Some("http://a"),
            &["MIT"]
        )])))
    );
}

#[test]
fn bill_of_a_closure_with_a_nameless_derivation_fails() {
    let closure = vec![
        (text("a.drv"), drv_with_env(&[("name", "pkgA")])),
        (text("tool.drv"), drv_with_env(&[])),
    ];
    assert_eq!(
        sbom_of_closure(inputs(SBOMType::Spdx), &closure, catalog_of(vec![pkg_a()])),
        Err(StructuralAssumptionError { index: 1 })
    );
    assert_eq!(
        sbom_of_closure(inputs(SBOMType::CycloneDX), &closure, Catalog::new()),
        Err(StructuralAssumptionError { index: 1 })
    );
}
