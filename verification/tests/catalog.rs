use nixbom::catalog::{get_packages, get_packages_wrapper, package_fixer, Catalog};
use nixbom::error::CatalogLoadError;
use nixbom::json::Json;
use nixbom::nix::{Homepages, License, Licenses, Meta, Package};

fn text(value: &str) -> String {
    value.to_string()
}

fn bytes(value: &str) -> Vec<u8> {
    value.as_bytes().to_vec()
}

fn package(name: &str, version: &str) -> Package {
    Package {
        name: text(name),
        pname: text(name),
        version: text(version),
        meta: Meta { license: None, description: None, homepage: None, extra: vec![] },
        extra: vec![],
    }
}

fn meta_of(source: &str) -> Result<Meta, CatalogLoadError> {
    let document = format!(
        r#"{{"attr": {{"name": "n", "pname": "p", "version": "1", "meta": {}}}}}"#,
        source
    );
    get_packages(bytes(&document)).map(|mut packages| packages.remove(0).1.meta)
}

fn license_of(source: &str) -> Result<Option<Licenses>, CatalogLoadError> {
    meta_of(&format!(r#"{{"license": {}}}"#, source)).map(|meta| meta.license)
}

fn homepage_of(source: &str) -> Result<Option<Homepages>, CatalogLoadError> {
    meta_of(&format!(r#"{{"homepage": {}}}"#, source)).map(|meta| meta.homepage)
}

const CATALOG: &str = r#"{
  "nixpkgs.hello": {
    "name": "hello-2.10",
    "pname": "hello",
    "version": "2.10",
    "system": "x86_64-linux",
    "meta": {
      "available": true,
      "description": "A program that produces a familiar, friendly greeting",
      "homepage": "https://www.gnu.org/software/hello/manual/",
      "license": {
        "fullName": "GNU General Public License v3.0 or later",
        "shortName": "gpl3Plus",
        "spdxId": "GPL-3.0-or-later",
        "url": "https://spdx.org/licenses/GPL-3.0-or-later.html",
        "free": true
      }
    }
  }
}"#;

#[test]
fn packages_are_read_with_their_attributes() {
    let expected = Package {
        name: text("hello-2.10"),
        pname: text("hello"),
        version: text("2.10"),
        meta: Meta {
            license: Some(Licenses::License(License {
                full_name: Some(text("GNU General Public License v3.0 or later")),
                short_name: Some(text("gpl3Plus")),
                spdx_id: Some(text("GPL-3.0-or-later")),
                url: Some(text("https://spdx.org/licenses/GPL-3.0-or-later.html")),
            })),
            description: Some(text("A program that produces a familiar, friendly greeting")),
            homepage: Some(Homepages::Homepage(text(
                "https://www.gnu.org/software/hello/manual/",
            ))),
            extra: vec![(text("available"), Json::Bool(true))],
        },
        extra: vec![(text("system"), Json::String(text("x86_64-linux")))],
    };
    assert_eq!(get_packages(bytes(CATALOG)), Ok(vec![(text("nixpkgs.hello"), expected)]));
}

#[test]
fn a_catalog_that_is_not_json_is_not_loaded() {
    assert_eq!(get_packages(bytes("")), Err(CatalogLoadError::Syntax));
    assert_eq!(get_packages(bytes("{\"a\"")), Err(CatalogLoadError::Syntax));
    assert!(matches!(get_packages_wrapper(bytes("nope")), Err(CatalogLoadError::Syntax)));
}

#[test]
fn json_of_another_shape_is_no_catalog() {
    assert_eq!(get_packages(bytes("[]")), Err(CatalogLoadError::Shape));
    assert_eq!(get_packages(bytes(r#"{"a": 1}"#)), Err(CatalogLoadError::Shape));
    assert_eq!(
        get_packages(bytes(r#"{"a": {"name": "n", "pname": "p", "version": "1"}}"#)),
        Err(CatalogLoadError::Shape)
    );
    assert_eq!(
        get_packages(bytes(r#"{"a": {"name": "n", "pname": "p", "version": 1, "meta": {}}}"#)),
        Err(CatalogLoadError::Shape)
    );
    assert!(matches!(get_packages_wrapper(bytes("3")), Err(CatalogLoadError::Shape)));
}

#[test]
fn a_package_without_metadata_fields_has_none() {
    assert_eq!(
        meta_of("{}"),
        Ok(Meta { license: None, description: None, homepage: None, extra: vec![] })
    );
    assert_eq!(
        meta_of(r#"{"license": null, "description": null, "homepage": null}"#),
        Ok(Meta { license: None, description: None, homepage: None, extra: vec![] })
    );
}

#[test]
fn each_shape_of_the_license_field_has_its_variant() {
    assert_eq!(
        license_of(r#"{"spdxId": "MIT"}"#),
        Ok(Some(Licenses::License(License {
            full_name: None,
            short_name: None,
            spdx_id: Some(text("MIT")),
            url: None,
        })))
    );
    assert_eq!(
        license_of(r#"[{"shortName": "mit"}, {"fullName": "Foo", "url": null}]"#),
        Ok(Some(Licenses::LicenseList(vec![
            License { full_name: None, short_name: Some(text("mit")), spdx_id: None, url: None },
            License { full_name: Some(text("Foo")), short_name: None, spdx_id: None, url: None },
        ])))
    );
    assert_eq!(license_of(r#""unfree""#), Ok(Some(Licenses::NameOnly(text("unfree")))));
    assert_eq!(
        license_of(r#"["mit", "bsd"]"#),
        Ok(Some(Licenses::NameOnlyList(vec![text("mit"), text("bsd")])))
    );
    assert_eq!(
        license_of(r#"["mit", {"spdxId": "BSD-3-Clause"}, ["a", "b"]]"#),
        Ok(Some(Licenses::SpecialCase(vec![
            Licenses::NameOnly(text("mit")),
            Licenses::License(License {
                full_name: None,
                short_name: None,
                spdx_id: Some(text("BSD-3-Clause")),
                url: None,
            }),
            Licenses::NameOnlyList(vec![text("a"), text("b")]),
        ])))
    );
    assert_eq!(license_of("[]"), Ok(Some(Licenses::LicenseList(vec![]))));
}

#[test]
fn a_license_field_of_no_known_shape_is_malformed() {
    assert_eq!(license_of("3"), Err(CatalogLoadError::Shape));
    assert_eq!(license_of("true"), Err(CatalogLoadError::Shape));
    assert_eq!(license_of(r#"{"spdxId": 3}"#), Err(CatalogLoadError::Shape));
    assert_eq!(license_of(r#"["mit", 3]"#), Err(CatalogLoadError::Shape));
}

#[test]
fn each_shape_of_the_homepage_field_has_its_variant() {
    assert_eq!(homepage_of(r#""http://a""#), Ok(Some(Homepages::Homepage(text("http://a")))));
    assert_eq!(
        homepage_of(r#"["http://a", "http://b"]"#),
        Ok(Some(Homepages::HomepageList(vec![text("http://a"), text("http://b")])))
    );
    assert_eq!(homepage_of("[]"), Ok(Some(Homepages::HomepageList(vec![]))));
    assert_eq!(homepage_of("3"), Err(CatalogLoadError::Shape));
    assert_eq!(homepage_of(r#"["http://a", 3]"#), Err(CatalogLoadError::Shape));
    assert_eq!(homepage_of(r#"{"url": "http://a"}"#), Err(CatalogLoadError::Shape));
}

#[test]
fn a_catalog_finds_a_package_by_its_name() {
    let mut catalog = Catalog::new();
    assert_eq!(catalog.len(), 0);
    assert_eq!(catalog.get("hello-2.10"), None);
    catalog.insert(package("hello-2.10", "2.10"));
    catalog.insert(package("zlib-1.2.11", "1.2.11"));
    assert_eq!(catalog.len(), 2);
    assert_eq!(catalog.get("hello-2.10"), Some(&package("hello-2.10", "2.10")));
    assert_eq!(catalog.get("zlib-1.2.11"), Some(&package("zlib-1.2.11", "1.2.11")));
    assert_eq!(catalog.get("hello"), None);
}

#[test]
fn a_later_package_takes_the_place_of_an_earlier_one_of_its_name() {
    let mut catalog = Catalog::new();
    catalog.insert(package("hello-2.10", "old"));
    catalog.insert(package("hello-2.10", "new"));
    assert_eq!(catalog.len(), 1);
    assert_eq!(catalog.get("hello-2.10").map(|found| found.version.as_str()), Some("new"));
}

#[test]
fn package_fixer_puts_each_package_under_its_name() {
    let catalog = package_fixer(vec![
        (text("nixpkgs.hello"), package("hello-2.10", "2.10")),
        (text("nixpkgs.zlib"), package("zlib-1.2.11", "1.2.11")),
    ]);
    assert_eq!(catalog.len(), 2);
    assert_eq!(catalog.get("nixpkgs.hello"), None);
    assert_eq!(catalog.get("hello-2.10"), Some(&package("hello-2.10", "2.10")));
    assert_eq!(catalog.get("zlib-1.2.11"), Some(&package("zlib-1.2.11", "1.2.11")));
}

#[test]
fn of_two_packages_of_one_name_the_first_listed_stays() {
    let catalog = package_fixer(vec![
        (text("a.hello"), package("hello-2.10", "first")),
        (text("b.hello"), package("hello-2.10", "second")),
    ]);
    assert_eq!(catalog.len(), 1);
    assert_eq!(catalog.get("hello-2.10").map(|found| found.version.as_str()), Some("first"));
}

#[test]
fn the_catalog_is_loaded_from_the_output_of_its_query() {
    let catalog = get_packages_wrapper(bytes(CATALOG)).ok().unwrap();
    assert_eq!(catalog.len(), 1);
    assert_eq!(catalog.get("hello-2.10").map(|found| found.pname.as_str()), Some("hello"));
    assert_eq!(catalog.get("nixpkgs.hello"), None);
}

#[test]
fn each_catalog_error_says_what_went_wrong() {
    assert_eq!(CatalogLoadError::Fetch.message(), "the package catalog could not be fetched");
    assert_eq!(CatalogLoadError::Syntax.message(), "the package catalog is not JSON");
    assert_eq!(CatalogLoadError::Shape.message(), "the package catalog does not describe packages");
}
