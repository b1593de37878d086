//! The data model of the Nix side: derivations and catalog packages.
use vstd::prelude::*;

use crate::closure::{drvs_model, edges_of, is_next_step, ClosureWalker, Reference, WalkStep};
use crate::json::{members_model, Json, JsonView};

verus! {

/// One output of a derivation.
#[derive(Debug, PartialEq, Eq)]
pub struct Out {
    pub path: String,
    pub hash_algo: Option<String>,
    pub hash: Option<String>,
}

/// The mathematical value of an [`Out`].
pub struct OutView {
    pub path: Seq<char>,
    pub hash_algo: Option<Seq<char>>,
    pub hash: Option<Seq<char>>,
}

impl Out {
    /// The value of the output.
    pub open spec fn model(&self) -> OutView {
        OutView {
            path: self.path@,
            hash_algo: self.hash_algo.deep_view(),
            hash: self.hash.deep_view(),
        }
    }
}

/// The names of a list of entries, in order.
pub open spec fn entry_names<T>(entries: Seq<(Seq<char>, T)>) -> Seq<Seq<char>> {
    entries.map_values(|entry: (Seq<char>, T)| entry.0)
}

/// The values of the outputs of a derivation, each with its name.
pub open spec fn outputs_model(outputs: Seq<(String, Out)>) -> Seq<(Seq<char>, OutView)> {
    outputs.map_values(|output: (String, Out)| (output.0@, output.1.model()))
}

/// A derivation: one node of the build graph.
///
/// The maps of a derivation are kept as lists of entries. A derivation that
/// was read from the answer of a query has no two entries of one name in any
/// of them ([`DrvView::wf`]). `input_drvs` is the edge set: each entry names a
/// derivation this one is built from, with the outputs consumed from it.
#[derive(Debug, PartialEq, Eq)]
pub struct Drv {
    pub outputs: Vec<(String, Out)>,
    pub input_srcs: Vec<String>,
    pub input_drvs: Vec<(String, Vec<String>)>,
    pub system: String,
    pub builder: String,
    pub args: Vec<String>,
    pub env: Vec<(String, String)>,
    pub extra: Vec<(String, Json)>,
}

/// The mathematical value of a [`Drv`].
pub struct DrvView {
    pub outputs: Seq<(Seq<char>, OutView)>,
    pub input_srcs: Seq<Seq<char>>,
    pub input_drvs: Seq<(Seq<char>, Seq<Seq<char>>)>,
    pub system: Seq<char>,
    pub builder: Seq<char>,
    pub args: Seq<Seq<char>>,
    pub env: Seq<(Seq<char>, Seq<char>)>,
    pub extra: Seq<(Seq<char>, JsonView)>,
}

impl Drv {
    /// The value of the derivation.
    pub open spec fn model(&self) -> DrvView {
        DrvView {
            outputs: outputs_model(self.outputs@),
            input_srcs: self.input_srcs.deep_view(),
            input_drvs: self.input_drvs.deep_view(),
            system: self.system@,
            builder: self.builder@,
            args: self.args.deep_view(),
            env: self.env.deep_view(),
            extra: members_model(self.extra@),
        }
    }
}

impl DrvView {
    /// The lists of the derivation are maps: none has two entries of one
    /// name.
    pub open spec fn wf(self) -> bool {
        &&& entry_names(self.outputs).no_duplicates()
        &&& entry_names(self.input_drvs).no_duplicates()
        &&& entry_names(self.env).no_duplicates()
        &&& entry_names(self.extra).no_duplicates()
    }

    /// The references of the derivations this one is built from, in order.
    pub open spec fn input_references(self) -> Seq<Seq<char>> {
        entry_names(self.input_drvs)
    }
}

/// The values of a list of derivations.
pub open spec fn drv_models(drvs: Seq<Drv>) -> Seq<DrvView> {
    drvs.map_values(|drv: Drv| drv.model())
}

/// A set of derivations, each under its reference, as a query of the build
/// graph describes them.
pub trait Derivation {
    /// The derivations of the set, each with its reference.
    spec fn described(&self) -> Seq<(Reference, DrvView)>;

    /// The derivations of the set, without their references.
    fn get_inner_drv(&self) -> (inner: Vec<Drv>)
        ensures
            drv_models(inner@) == self.described().map_values(
                |entry: (Reference, DrvView)| entry.1,
            ),
    ;

    /// Starts the walk of the derivations that those of the set are built
    /// from, directly or through others.
    fn get_input_derivations(&self) -> (next: WalkStep)
        ensures
            is_next_step(next, edges_of(self.described()), Seq::empty()),
    ;
}

impl Derivation for Vec<(String, Drv)> {
    open spec fn described(&self) -> Seq<(Reference, DrvView)> {
        drvs_model(self@)
    }

    fn get_inner_drv(&self) -> (inner: Vec<Drv>) {
        let mut inner: Vec<Drv> = Vec::new();
        let mut i: usize = 0;
        while i < self.len()
            invariant
                i <= self.len(),
                inner.len() == i,
                forall|k: int| 0 <= k < i ==> inner@[k].model() == self@[k].1.model(),
            decreases self.len() - i,
        {
            inner.push(self[i].1.clone());
            i += 1;
        }
        inner
    }

    fn get_input_derivations(&self) -> (next: WalkStep) {
        ClosureWalker::start(self)
    }
}

/// One license as the catalog describes it.
#[derive(Debug, PartialEq, Eq)]
pub struct License {
    pub full_name: Option<String>,
    pub short_name: Option<String>,
    pub spdx_id: Option<String>,
    pub url: Option<String>,
}

/// The mathematical value of a [`License`].
pub struct LicenseView {
    pub full_name: Option<Seq<char>>,
    pub short_name: Option<Seq<char>>,
    pub spdx_id: Option<Seq<char>>,
    pub url: Option<Seq<char>>,
}

impl License {
    /// The value of the license.
    pub open spec fn model(&self) -> LicenseView {
        LicenseView {
            full_name: self.full_name.deep_view(),
            short_name: self.short_name.deep_view(),
            spdx_id: self.spdx_id.deep_view(),
            url: self.url.deep_view(),
        }
    }
}

/// The license field of a package, in each of the shapes it comes in.
#[derive(Debug, PartialEq, Eq)]
pub enum Licenses {
    License(License),
    LicenseList(Vec<License>),
    NameOnly(String),
    NameOnlyList(Vec<String>),
    SpecialCase(Vec<Licenses>),
}

/// The mathematical value of a [`Licenses`].
pub enum LicensesView {
    License(LicenseView),
    LicenseList(Seq<LicenseView>),
    NameOnly(Seq<char>),
    NameOnlyList(Seq<Seq<char>>),
    SpecialCase(Seq<LicensesView>),
}

impl Licenses {
    /// The value of the license field.
    pub open spec fn model(&self) -> LicensesView
        decreases self,
    {
        match self {
            Licenses::License(license) => LicensesView::License(license.model()),
            Licenses::LicenseList(licenses) => LicensesView::LicenseList(
                licenses@.map_values(|license: License| license.model()),
            ),
            Licenses::NameOnly(name) => LicensesView::NameOnly(name@),
            Licenses::NameOnlyList(names) => LicensesView::NameOnlyList(names.deep_view()),
            Licenses::SpecialCase(nested) => LicensesView::SpecialCase(
                Seq::new(
                    nested@.len(),
                    |i: int|
                        if 0 <= i < nested@.len() {
                            nested@[i].model()
                        } else {
                            LicensesView::SpecialCase(Seq::empty())
                        },
                ),
            ),
        }
    }
}

/// The homepage field of a package: one URL or a list of URLs.
#[derive(Debug, PartialEq, Eq)]
pub enum Homepages {
    Homepage(String),
    HomepageList(Vec<String>),
}

/// The mathematical value of a [`Homepages`].
pub enum HomepagesView {
    Homepage(Seq<char>),
    HomepageList(Seq<Seq<char>>),
}

impl Homepages {
    /// The value of the homepage field.
    pub open spec fn model(&self) -> HomepagesView {
        match self {
            Homepages::Homepage(url) => HomepagesView::Homepage(url@),
            Homepages::HomepageList(urls) => HomepagesView::HomepageList(urls.deep_view()),
        }
    }
}

/// The metadata block of a catalog package.
#[derive(Debug, PartialEq, Eq)]
pub struct Meta {
    pub license: Option<Licenses>,
    pub description: Option<String>,
    pub homepage: Option<Homepages>,
    pub extra: Vec<(String, Json)>,
}

/// The mathematical value of a [`Meta`].
pub struct MetaView {
    pub license: Option<LicensesView>,
    pub description: Option<Seq<char>>,
    pub homepage: Option<HomepagesView>,
    pub extra: Seq<(Seq<char>, JsonView)>,
}

impl Meta {
    /// The value of the metadata block.
    pub open spec fn model(&self) -> MetaView {
        MetaView {
            license: match self.license {
                Some(raw) => Some(raw.model()),
                None => None,
            },
            description: self.description.deep_view(),
            homepage: match self.homepage {
                Some(raw) => Some(raw.model()),
                None => None,
            },
            extra: members_model(self.extra@),
        }
    }
}

impl MetaView {
    /// The list of the block is a map: it has no two entries of one name.
    pub open spec fn wf(self) -> bool {
        entry_names(self.extra).no_duplicates()
    }
}

/// One entry of the package catalog.
#[derive(Debug, PartialEq, Eq)]
pub struct Package {
    pub name: String,
    pub pname: String,
    pub version: String,
    pub meta: Meta,
    pub extra: Vec<(String, Json)>,
}

/// The mathematical value of a [`Package`].
pub struct PackageView {
    pub name: Seq<char>,
    pub pname: Seq<char>,
    pub version: Seq<char>,
    pub meta: MetaView,
    pub extra: Seq<(Seq<char>, JsonView)>,
}

impl PackageView {
    /// The lists of the package are maps: none has two entries of one name.
    pub open spec fn wf(self) -> bool {
        &&& entry_names(self.extra).no_duplicates()
        &&& self.meta.wf()
    }
}

impl Package {
    /// The value of the package.
    pub open spec fn model(&self) -> PackageView {
        PackageView {
            name: self.name@,
            pname: self.pname@,
            version: self.version@,
            meta: self.meta.model(),
            extra: members_model(self.extra@),
        }
    }
}

/// A copy of a list of strings.
pub fn clone_strings(texts: &Vec<String>) -> (copy: Vec<String>)
    ensures
        copy.deep_view() == texts.deep_view(),
{
    let mut copy: Vec<String> = Vec::new();
    let mut i: usize = 0;
    while i < texts.len()
        invariant
            i <= texts.len(),
            copy.len() == i,
            forall|k: int| 0 <= k < i ==> copy@[k]@ == texts@[k]@,
        decreases texts.len() - i,
    {
        copy.push(texts[i].clone());
        i += 1;
    }
    copy
}

/// A copy of the fields that a record keeps as it found them.
pub fn clone_members(members: &Vec<(String, Json)>) -> (copy: Vec<(String, Json)>)
    ensures
        members_model(copy@) == members_model(members@),
{
    let mut copy: Vec<(String, Json)> = Vec::new();
    let mut i: usize = 0;
    while i < members.len()
        invariant
            i <= members.len(),
            copy.len() == i,
            forall|k: int|
                0 <= k < i ==> copy@[k].0@ == members@[k].0@ && copy@[k].1.model()
                    == members@[k].1.model(),
        decreases members.len() - i,
    {
        copy.push((members[i].0.clone(), members[i].1.clone()));
        i += 1;
    }
    copy
}

impl Clone for Out {
    /// A copy with the same value.
    fn clone(&self) -> (copy: Out)
        ensures
            copy.model() == self.model(),
    {
        Out {
            path: self.path.clone(),
            hash_algo: match &self.hash_algo {
                Some(text) => Some(text.clone()),
                None => None,
            },
            hash: match &self.hash {
                Some(text) => Some(text.clone()),
                None => None,
            },
        }
    }
}

impl Clone for License {
    /// A copy with the same value.
    fn clone(&self) -> (copy: License)
        ensures
            copy.model() == self.model(),
    {
        License {
            full_name: match &self.full_name {
                Some(text) => Some(text.clone()),
                None => None,
            },
            short_name: match &self.short_name {
                Some(text) => Some(text.clone()),
                None => None,
            },
            spdx_id: match &self.spdx_id {
                Some(text) => Some(text.clone()),
                None => None,
            },
            url: match &self.url {
                Some(text) => Some(text.clone()),
                None => None,
            },
        }
    }
}

impl Clone for Licenses {
    /// A copy with the same value.
    fn clone(&self) -> (copy: Licenses)
        ensures
            copy.model() == self.model(),
        decreases self,
    {
        match self {
            Licenses::License(license) => Licenses::License(license.clone()),
            Licenses::LicenseList(licenses) => {
                let mut copies: Vec<License> = Vec::new();
                let mut i: usize = 0;
                while i < licenses.len()
                    invariant
                        i <= licenses.len(),
                        copies.len() == i,
                        forall|k: int| 0 <= k < i ==> copies@[k].model() == licenses@[k].model(),
                    decreases licenses.len() - i,
                {
                    copies.push(licenses[i].clone());
                    i += 1;
                }
                let copy = Licenses::LicenseList(copies);
                assert(copy.model()->LicenseList_0 =~= self.model()->LicenseList_0);
                copy
            },
            Licenses::NameOnly(name) => Licenses::NameOnly(name.clone()),
            Licenses::NameOnlyList(names) => Licenses::NameOnlyList(clone_strings(names)),
            Licenses::SpecialCase(nested) => {
                let mut copies: Vec<Licenses> = Vec::new();
                let mut i: usize = 0;
                while i < nested.len()
                    invariant
                        self is SpecialCase && self->SpecialCase_0 == *nested,
                        i <= nested.len(),
                        copies.len() == i,
                        forall|k: int| 0 <= k < i ==> copies@[k].model() == nested@[k].model(),
                    decreases nested.len() - i,
                {
                    copies.push(nested[i].clone());
                    i += 1;
                }
                let copy = Licenses::SpecialCase(copies);
                assert(copy.model()->SpecialCase_0 =~= self.model()->SpecialCase_0);
                copy
            },
        }
    }
}

impl Clone for Homepages {
    /// A copy with the same value.
    fn clone(&self) -> (copy: Homepages)
        ensures
            copy.model() == self.model(),
    {
        match self {
            Homepages::Homepage(url) => Homepages::Homepage(url.clone()),
            Homepages::HomepageList(urls) => Homepages::HomepageList(clone_strings(urls)),
        }
    }
}

impl Clone for Drv {
    /// A copy with the same value.
    fn clone(&self) -> (copy: Drv)
        ensures
            copy.model() == self.model(),
    {
        let mut outputs: Vec<(String, Out)> = Vec::new();
        let mut i: usize = 0;
        while i < self.outputs.len()
            invariant
                i <= self.outputs.len(),
                outputs.len() == i,
                forall|k: int|
                    0 <= k < i ==> outputs@[k].0@ == self.outputs@[k].0@ && outputs@[k].1.model()
                        == self.outputs@[k].1.model(),
            decreases self.outputs.len() - i,
        {
            outputs.push((self.outputs[i].0.clone(), self.outputs[i].1.clone()));
            i += 1;
        }
        let mut input_drvs: Vec<(String, Vec<String>)> = Vec::new();
        let mut i: usize = 0;
        while i < self.input_drvs.len()
            invariant
                i <= self.input_drvs.len(),
                input_drvs.len() == i,
                forall|k: int|
                    0 <= k < i ==> input_drvs@[k].deep_view() == self.input_drvs@[k].deep_view(),
            decreases self.input_drvs.len() - i,
        {
            input_drvs.push(
                (self.input_drvs[i].0.clone(), clone_strings(&self.input_drvs[i].1)),
            );
            i += 1;
        }
        let mut env: Vec<(String, String)> = Vec::new();
        let mut i: usize = 0;
        while i < self.env.len()
            invariant
                i <= self.env.len(),
                env.len() == i,
                forall|k: int| 0 <= k < i ==> env@[k].deep_view() == self.env@[k].deep_view(),
            decreases self.env.len() - i,
        {
            env.push((self.env[i].0.clone(), self.env[i].1.clone()));
            i += 1;
        }
        let copy = Drv {
            outputs,
            input_srcs: clone_strings(&self.input_srcs),
            input_drvs,
            system: self.system.clone(),
            builder: self.builder.clone(),
            args: clone_strings(&self.args),
            env,
            extra: clone_members(&self.extra),
        };
        proof {
            assert(outputs_model(copy.outputs@) =~= outputs_model(self.outputs@));
            assert(copy.input_drvs.deep_view() =~= self.input_drvs.deep_view());
            assert(copy.env.deep_view() =~= self.env.deep_view());
        }
        copy
    }
}

} // verus!
