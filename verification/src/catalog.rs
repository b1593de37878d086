//! The package catalog: every available package, found by its name.
use vstd::prelude::*;
use vstd::hash_map::StringHashMap;

use crate::decode::{
    decode_packages, lemma_decode_packages_wf, packages_model, spec_decode_packages,
};
use crate::error::CatalogLoadError;
use crate::json::{json_of_bytes, parse_json};
use crate::nix::{entry_names, Package, PackageView};

verus! {

/// The packages of the catalog, each under its `name`.
pub struct Catalog {
    packages: StringHashMap<Package>,
}

impl View for Catalog {
    type V = Map<Seq<char>, Package>;

    closed spec fn view(&self) -> Map<Seq<char>, Package> {
        self.packages@
    }
}

impl Catalog {
    /// The values of the packages, each under its name.
    pub open spec fn model(&self) -> Map<Seq<char>, PackageView> {
        self@.map_values(|package: Package| package.model())
    }

    /// Every package of the catalog stands under its own name.
    pub open spec fn keyed_by_name(&self) -> bool {
        forall|name: Seq<char>| #[trigger]
            self@.contains_key(name) ==> self@[name].name@ == name
    }

    /// The catalog without any package.
    pub fn new() -> (catalog: Catalog)
        ensures
            catalog@ == Map::<Seq<char>, Package>::empty(),
            catalog.keyed_by_name(),
    {
        Catalog { packages: StringHashMap::new() }
    }

    /// Puts `package` under its name, in place of an earlier package of that
    /// name.
    pub fn insert(&mut self, package: Package)
        ensures
            final(self)@ == old(self)@.insert(package.name@, package),
            final(self).model() == old(self).model().insert(package.name@, package.model()),
            old(self).keyed_by_name() ==> final(self).keyed_by_name(),
    {
        let name = package.name.clone();
        self.packages.insert(name, package);
    }

    /// The package of the given name, if the catalog has one.
    pub fn get(&self, name: &str) -> (found: Option<&Package>)
        ensures
            found == (if self@.contains_key(name@) {
                Some(&self@[name@])
            } else {
                None
            }),
    {
        self.packages.get(name)
    }

    /// The number of packages.
    pub fn len(&self) -> (count: usize)
        ensures
            count == self@.len(),
    {
        self.packages.len()
    }
}

/// The packages that the output of the catalog query describes, each with
/// the attribute that the catalog lists it by.
pub open spec fn spec_packages(output: Seq<u8>) -> Result<
    Seq<(Seq<char>, PackageView)>,
    CatalogLoadError,
> {
    match json_of_bytes(output) {
        Some(json) => match spec_decode_packages(json) {
            Some(packages) => Ok(packages),
            None => Err(CatalogLoadError::Shape),
        },
        None => Err(CatalogLoadError::Syntax),
    }
}

/// The packages of a list, each under its name. Of the packages of one name
/// the first of the list stays.
pub open spec fn spec_package_fixer(packages: Seq<(Seq<char>, PackageView)>) -> Map<
    Seq<char>,
    PackageView,
>
    decreases packages.len(),
{
    if packages.len() == 0 {
        Map::empty()
    } else {
        spec_package_fixer(packages.drop_first()).insert(packages[0].1.name, packages[0].1)
    }
}

/// The catalog that the output of the catalog query describes.
pub open spec fn spec_packages_wrapper(output: Seq<u8>) -> Result<
    Map<Seq<char>, PackageView>,
    CatalogLoadError,
> {
    match spec_packages(output) {
        Ok(packages) => Ok(spec_package_fixer(packages)),
        Err(error) => Err(error),
    }
}

/// The packages are a map, and so are the lists of each: no two packages are
/// listed by one attribute, and no list has two entries of one name.
pub open spec fn are_maps(packages: Seq<(Seq<char>, PackageView)>) -> bool {
    &&& entry_names(packages).no_duplicates()
    &&& forall|i: int| 0 <= i < packages.len() ==> (#[trigger] packages[i]).1.wf()
}

/// Reads the output of the catalog query as the packages it describes.
pub fn get_packages(output: Vec<u8>) -> (answer: Result<Vec<(String, Package)>, CatalogLoadError>)
    ensures
        match answer {
            Ok(packages) => spec_packages(output@) == Ok::<
                Seq<(Seq<char>, PackageView)>,
                CatalogLoadError,
            >(packages_model(packages@)) && are_maps(packages_model(packages@)),
            Err(error) => spec_packages(output@) == Err::<
                Seq<(Seq<char>, PackageView)>,
                CatalogLoadError,
            >(error),
        },
{
    match parse_json(&output) {
        Some(json) => match decode_packages(&json) {
            Some(packages) => {
                proof {
                    lemma_decode_packages_wf(json.model());
                }
                Ok(packages)
            },
            None => Err(CatalogLoadError::Shape),
        },
        None => Err(CatalogLoadError::Syntax),
    }
}

/// Puts each package of the list under its name.
pub fn package_fixer(packages: Vec<(String, Package)>) -> (catalog: Catalog)
    ensures
        catalog.model() == spec_package_fixer(packages_model(packages@)),
        catalog.keyed_by_name(),
{
    let ghost all = packages_model(packages@);
    let mut packages = packages;
    let mut catalog = Catalog::new();
    while packages.len() > 0
        invariant
            packages@.len() <= all.len(),
            packages_model(packages@) == all.take(packages@.len() as int),
            catalog.model() == spec_package_fixer(all.skip(packages@.len() as int)),
            catalog.keyed_by_name(),
        decreases packages.len(),
    {
        let ghost n = packages@.len() as int;
        let ghost listed = packages_model(packages@);
        match packages.pop() {
            Some(entry) => {
                proof {
                    assert(listed[n - 1] == all[n - 1]);
                    assert(all.skip(n - 1).drop_first() =~= all.skip(n));
                }
                catalog.insert(entry.1);
            },
            None => {},
        }
    }
    catalog
}

/// Reads the output of the catalog query as a catalog.
pub fn get_packages_wrapper(output: Vec<u8>) -> (answer: Result<Catalog, CatalogLoadError>)
    ensures
        match answer {
            Ok(catalog) => spec_packages_wrapper(output@) == Ok::<
                Map<Seq<char>, PackageView>,
                CatalogLoadError,
            >(catalog.model()) && catalog.keyed_by_name(),
            Err(error) => spec_packages_wrapper(output@) == Err::<
                Map<Seq<char>, PackageView>,
                CatalogLoadError,
            >(error),
        },
{
    match get_packages(output) {
        Ok(packages) => Ok(package_fixer(packages)),
        Err(error) => Err(error),
    }
}

} // verus!
