//! The metadata normalizer: license and homepage fields, which the catalog
//! gives in several shapes, resolved to one canonical shape.
use vstd::prelude::*;

use crate::nix::{Homepages, HomepagesView, License, LicenseView, Licenses, LicensesView};

verus! {

/// The identifier of one license: the first field present of the SPDX
/// identifier, the full name, the short name and the URL, in this order.
pub open spec fn spec_license_helper(license: LicenseView) -> Option<Seq<char>> {
    if license.spdx_id is Some {
        license.spdx_id
    } else if license.full_name is Some {
        license.full_name
    } else if license.short_name is Some {
        license.short_name
    } else {
        license.url
    }
}

/// The identifiers of a license field, one entry for each license it lists,
/// in order. A license without any usable field gives `None`, and so does
/// each entry of a nested list.
pub open spec fn spec_normalize_licenses(raw: LicensesView) -> Seq<Option<Seq<char>>> {
    match raw {
        LicensesView::License(license) => seq![spec_license_helper(license)],
        LicensesView::LicenseList(licenses) => licenses.map_values(
            |license: LicenseView| spec_license_helper(license),
        ),
        LicensesView::NameOnly(name) => seq![Some(name)],
        LicensesView::NameOnlyList(names) => names.map_values(|name: Seq<char>| Some(name)),
        LicensesView::SpecialCase(nested) => Seq::new(
            nested.len(),
            |i: int| None::<Seq<char>>,
        ),
    }
}

/// The identifiers that are present, in order.
pub open spec fn spec_present(ids: Seq<Option<Seq<char>>>) -> Seq<Seq<char>> {
    ids.filter_map(|id: Option<Seq<char>>| id)
}

/// The license identifiers of a package: those its license field resolves
/// to, without the entries that resolve to nothing. A package without a
/// license field has none.
pub open spec fn spec_license_ids(license: Option<LicensesView>) -> Seq<Seq<char>> {
    match license {
        Some(raw) => spec_present(spec_normalize_licenses(raw)),
        None => Seq::empty(),
    }
}

/// The homepage of a homepage field: the URL itself, or the first URL of a
/// list. An empty list has none.
pub open spec fn spec_normalize_homepage(raw: HomepagesView) -> Option<Seq<char>> {
    match raw {
        HomepagesView::Homepage(url) => Some(url),
        HomepagesView::HomepageList(urls) => if urls.len() > 0 {
            Some(urls[0])
        } else {
            None
        },
    }
}

/// A copy of an optional string.
pub fn clone_optional(value: &Option<String>) -> (copy: Option<String>)
    ensures
        copy.deep_view() == value.deep_view(),
{
    match value {
        Some(text) => Some(text.clone()),
        None => None,
    }
}

/// Resolves one license to its identifier.
pub fn license_helper(license: License) -> (id: Option<String>)
    ensures
        id.deep_view() == spec_license_helper(license.model()),
{
    if license.spdx_id.is_some() {
        license.spdx_id
    } else if license.full_name.is_some() {
        license.full_name
    } else if license.short_name.is_some() {
        license.short_name
    } else {
        license.url
    }
}

/// Resolves one license, which stays with its owner, to its identifier.
fn license_id(license: &License) -> (id: Option<String>)
    ensures
        id.deep_view() == spec_license_helper(license.model()),
{
    if license.spdx_id.is_some() {
        clone_optional(&license.spdx_id)
    } else if license.full_name.is_some() {
        clone_optional(&license.full_name)
    } else if license.short_name.is_some() {
        clone_optional(&license.short_name)
    } else {
        clone_optional(&license.url)
    }
}

/// Resolves a license field to the identifiers of its entries.
pub fn normalize_licenses(raw: &Licenses) -> (ids: Vec<Option<String>>)
    ensures
        ids.deep_view() == spec_normalize_licenses(raw.model()),
{
    let mut ids: Vec<Option<String>> = Vec::new();
    match raw {
        Licenses::License(license) => {
            ids.push(license_id(license));
        },
        Licenses::LicenseList(licenses) => {
            let mut i: usize = 0;
            while i < licenses.len()
                invariant
                    i <= licenses.len(),
                    ids.len() == i,
                    forall|k: int|
                        0 <= k < i ==> ids@[k].deep_view() == spec_license_helper(
                            licenses@[k].model(),
                        ),
                decreases licenses.len() - i,
            {
                ids.push(license_id(&licenses[i]));
                i += 1;
            }
        },
        Licenses::NameOnly(name) => {
            ids.push(Some(name.clone()));
        },
        Licenses::NameOnlyList(names) => {
            let mut i: usize = 0;
            while i < names.len()
                invariant
                    i <= names.len(),
                    ids.len() == i,
                    forall|k: int| 0 <= k < i ==> ids@[k].deep_view() == Some(names@[k]@),
                decreases names.len() - i,
            {
                ids.push(Some(names[i].clone()));
                i += 1;
            }
        },
        Licenses::SpecialCase(nested) => {
            let mut i: usize = 0;
            while i < nested.len()
                invariant
                    i <= nested.len(),
                    ids.len() == i,
                    forall|k: int| 0 <= k < i ==> ids@[k] is None,
                decreases nested.len() - i,
            {
                ids.push(None);
                i += 1;
            }
        },
    }
    ids
}

/// The license identifiers of a package, from its license field.
pub fn license_ids(license: &Option<Licenses>) -> (ids: Vec<String>)
    ensures
        ids.deep_view() == spec_license_ids(
            match license {
                Some(raw) => Some(raw.model()),
                None => None,
            },
        ),
{
    let mut ids: Vec<String> = Vec::new();
    match license {
        Some(raw) => {
            let resolved = normalize_licenses(raw);
            let ghost all = resolved.deep_view();
            let mut i: usize = 0;
            while i < resolved.len()
                invariant
                    i <= resolved.len(),
                    all == resolved.deep_view(),
                    ids.deep_view() == spec_present(all.take(i as int)),
                decreases resolved.len() - i,
            {
                proof {
                    assert(all.take(i + 1).drop_last() =~= all.take(i as int));
                }
                match &resolved[i] {
                    Some(id) => {
                        ids.push(id.clone());
                    },
                    None => {},
                }
                i += 1;
            }
            assert(all.take(i as int) =~= all);
        },
        None => {
        },
    }
    ids
}

/// Resolves a homepage field to one URL.
pub fn normalize_homepage(raw: &Homepages) -> (homepage: Option<String>)
    ensures
        homepage.deep_view() == spec_normalize_homepage(raw.model()),
{
    match raw {
        Homepages::Homepage(url) => Some(url.clone()),
        Homepages::HomepageList(urls) => if urls.len() > 0 {
            Some(urls[0].clone())
        } else {
            None
        },
    }
}

} // verus!
