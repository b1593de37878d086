use nixbom::nix::{Homepages, License, Licenses};
use nixbom::normalize::{license_helper, license_ids, normalize_homepage, normalize_licenses};

fn text(value: &str) -> String {
    value.to_string()
}

fn license(
    full_name: Option<&str>,
    short_name: Option<&str>,
    spdx_id: Option<&str>,
    url: Option<&str>,
) -> License {
    License {
        full_name: full_name.map(text),
        short_name: short_name.map(text),
        spdx_id: spdx_id.map(text),
        url: url.map(text),
    }
}

#[test]
fn spdx_id_comes_before_full_name() {
    let raw = Licenses::License(license(Some("MIT License"), None, Some("MIT"), None));
    assert_eq!(normalize_licenses(&raw), vec![Some(text("MIT"))]);
}

#[test]
fn full_name_comes_before_url() {
    let raw = Licenses::License(license(Some("Foo"), None, None, Some("http://x")));
    assert_eq!(normalize_licenses(&raw), vec![Some(text("Foo"))]);
}

#[test]
fn first_homepage_of_a_list() {
    let raw = Homepages::HomepageList(vec![text("http://a"), text("http://b")]);
    assert_eq!(normalize_homepage(&raw), Some(text("http://a")));
}

#[test]
fn license_helper_follows_the_priority_order() {
    let all = license(Some("full"), Some("short"), Some("spdx"), Some("url"));
    assert_eq!(license_helper(all), Some(text("spdx")));
    let without_spdx = license(Some("full"), Some("short"), None, Some("url"));
    assert_eq!(license_helper(without_spdx), Some(text("full")));
    let without_names = license(None, Some("short"), None, Some("url"));
    assert_eq!(license_helper(without_names), Some(text("short")));
    let url_only = license(None, None, None, Some("url"));
    assert_eq!(license_helper(url_only), Some(text("url")));
}

#[test]
fn license_without_any_field_has_no_identifier() {
    assert_eq!(license_helper(license(None, None, None, None)), None);
    let raw = Licenses::License(license(None, None, None, None));
    assert_eq!(normalize_licenses(&raw), vec![None]);
}

#[test]
fn license_list_is_resolved_entry_by_entry_in_order() {
    let raw = Licenses::LicenseList(vec![
        license(Some("GNU General Public License"), None, Some("GPL-3.0"), None),
        license(None, None, None, None),
        license(None, Some("bsd3"), None, None),
    ]);
    assert_eq!(
        normalize_licenses(&raw),
        vec![Some(text("GPL-3.0")), None, Some(text("bsd3"))]
    );
}

#[test]
fn bare_name_is_its_own_identifier() {
    let raw = Licenses::NameOnly(text("unfree"));
    assert_eq!(normalize_licenses(&raw), vec![Some(text("unfree"))]);
}

#[test]
fn bare_names_keep_their_order() {
    let raw = Licenses::NameOnlyList(vec![text("b"), text("a"), text("b")]);
    assert_eq!(
        normalize_licenses(&raw),
        vec![Some(text("b")), Some(text("a")), Some(text("b"))]
    );
}

#[test]
fn special_case_gives_nothing_for_each_entry() {
    let raw = Licenses::SpecialCase(vec![
        Licenses::NameOnly(text("mit")),
        Licenses::NameOnlyList(vec![text("a"), text("b")]),
        Licenses::SpecialCase(vec![]),
    ]);
    assert_eq!(normalize_licenses(&raw), vec![None, None, None]);
    assert_eq!(normalize_licenses(&Licenses::SpecialCase(vec![])), Vec::<Option<String>>::new());
}

#[test]
fn empty_lists_resolve_to_nothing() {
    assert_eq!(normalize_licenses(&Licenses::LicenseList(vec![])), Vec::<Option<String>>::new());
    assert_eq!(normalize_licenses(&Licenses::NameOnlyList(vec![])), Vec::<Option<String>>::new());
}

#[test]
fn license_ids_drop_what_resolves_to_nothing() {
    let raw = Licenses::LicenseList(vec![
        license(None, None, None, None),
        license(None, None, Some("MIT"), None),
        license(None, None, None, None),
        license(Some("Apache License 2.0"), None, None, None),
    ]);
    assert_eq!(license_ids(&Some(raw)), vec![text("MIT"), text("Apache License 2.0")]);
}

#[test]
fn license_ids_of_no_field_are_empty() {
    assert_eq!(license_ids(&None), Vec::<String>::new());
}

#[test]
fn license_ids_of_a_special_case_are_empty() {
    let raw = Licenses::SpecialCase(vec![Licenses::NameOnly(text("mit"))]);
    assert_eq!(license_ids(&Some(raw)), Vec::<String>::new());
}

#[test]
fn single_homepage_passes_through() {
    let raw = Homepages::Homepage(text("https://example.org/"));
    assert_eq!(normalize_homepage(&raw), Some(text("https://example.org/")));
}

#[test]
fn empty_homepage_list_has_no_homepage() {
    assert_eq!(normalize_homepage(&Homepages::HomepageList(vec![])), None);
}

#[test]
fn copies_of_license_fields_are_equal_to_them() {
    let raw = Licenses::SpecialCase(vec![
        Licenses::License(license(Some("a"), None, None, Some("u"))),
        Licenses::LicenseList(vec![license(None, Some("s"), None, None)]),
        Licenses::NameOnlyList(vec![text("x"), text("y")]),
    ]);
    assert_eq!(raw.clone(), raw);
    let pages = Homepages::HomepageList(vec![text("http://a")]);
    assert_eq!(pages.clone(), pages);
}
