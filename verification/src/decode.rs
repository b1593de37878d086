//! From JSON documents to derivations and catalog packages.
//!
//! Each record is decoded by the shape of its JSON: an object with the
//! members the record needs, each of the kind the record asks for. The
//! members that a record does not know are kept beside it as they are.
use vstd::prelude::*;

use crate::closure::{drvs_model, keys};
use crate::json::{member_names, members_model, Json, JsonView};
use crate::nix::{
    entry_names, outputs_model, Drv, DrvView, Homepages, HomepagesView, License, LicenseView, Licenses,
    LicensesView, Meta, MetaView, Out, OutView, Package, PackageView,
};

verus! {

/// The members of a JSON object, each under its name.
pub type Members = Seq<(Seq<char>, JsonView)>;

/// The value of the first member of the given name.
pub open spec fn spec_member(members: Members, name: Seq<char>) -> Option<JsonView>
    decreases members.len(),
{
    if members.len() == 0 {
        None
    } else if members[0].0 == name {
        Some(members[0].1)
    } else {
        spec_member(members.drop_first(), name)
    }
}

/// The members whose name is not among `known`, in order.
pub open spec fn spec_extra(members: Members, known: Seq<Seq<char>>) -> Members {
    members.filter_map(
        |member: (Seq<char>, JsonView)|
            if known.contains(member.0) {
                None
            } else {
                Some(member)
            },
    )
}

/// The text of a JSON string; anything else has none.
pub open spec fn spec_text(json: JsonView) -> Option<Seq<char>> {
    match json {
        JsonView::String(text) => Some(text),
        _ => None,
    }
}

/// The text of a member that a record must have.
pub open spec fn spec_required_text(members: Members, name: Seq<char>) -> Option<Seq<char>> {
    match spec_member(members, name) {
        Some(json) => spec_text(json),
        None => None,
    }
}

/// The text of a member that a record may have: a member that is missing or
/// null stands for no text, a string for its text. Anything else is
/// malformed, which the outer `None` says.
pub open spec fn spec_optional_text(members: Members, name: Seq<char>) -> Option<
    Option<Seq<char>>,
> {
    match spec_member(members, name) {
        None => Some(None),
        Some(JsonView::Null) => Some(None),
        Some(JsonView::String(text)) => Some(Some(text)),
        Some(_) => None,
    }
}

/// The texts of a JSON array of strings; anything else has none.
pub open spec fn spec_texts(json: JsonView) -> Option<Seq<Seq<char>>> {
    match json {
        JsonView::Array(items) => if forall|i: int|
            0 <= i < items.len() ==> (#[trigger] items[i]) is String {
            Some(Seq::new(items.len(), |i: int| items[i]->String_0))
        } else {
            None
        },
        _ => None,
    }
}

/// The texts of a member that a record must have.
pub open spec fn spec_required_texts(members: Members, name: Seq<char>) -> Option<
    Seq<Seq<char>>,
> {
    match spec_member(members, name) {
        Some(json) => spec_texts(json),
        None => None,
    }
}

/// The output that a JSON document describes: an object with a `path`, and
/// maybe a `hashAlgo` and a `hash`.
pub open spec fn spec_decode_out(json: JsonView) -> Option<OutView> {
    match json {
        JsonView::Object(members) => {
            let path = spec_required_text(members, "path"@);
            let hash_algo = spec_optional_text(members, "hashAlgo"@);
            let hash = spec_optional_text(members, "hash"@);
            if path is Some && hash_algo is Some && hash is Some {
                Some(
                    OutView { path: path->0, hash_algo: hash_algo->0, hash: hash->0 },
                )
            } else {
                None
            }
        },
        _ => None,
    }
}

/// The outputs that a JSON document describes: an object whose members are
/// outputs.
pub open spec fn spec_decode_outputs(json: JsonView) -> Option<Seq<(Seq<char>, OutView)>> {
    match json {
        JsonView::Object(members) => if forall|i: int|
            0 <= i < members.len() ==> spec_decode_out((#[trigger] members[i]).1) is Some {
            Some(
                Seq::new(
                    members.len(),
                    |i: int| (members[i].0, spec_decode_out(members[i].1)->0),
                ),
            )
        } else {
            None
        },
        _ => None,
    }
}

/// The input derivations that a JSON document describes: an object whose
/// members are arrays of strings.
pub open spec fn spec_decode_input_drvs(json: JsonView) -> Option<
    Seq<(Seq<char>, Seq<Seq<char>>)>,
> {
    match json {
        JsonView::Object(members) => if forall|i: int|
            0 <= i < members.len() ==> spec_texts((#[trigger] members[i]).1) is Some {
            Some(Seq::new(members.len(), |i: int| (members[i].0, spec_texts(members[i].1)->0)))
        } else {
            None
        },
        _ => None,
    }
}

/// The environment that a JSON document describes: an object whose members
/// are strings.
pub open spec fn spec_decode_env(json: JsonView) -> Option<Seq<(Seq<char>, Seq<char>)>> {
    match json {
        JsonView::Object(members) => if forall|i: int|
            0 <= i < members.len() ==> (#[trigger] members[i]).1 is String {
            Some(Seq::new(members.len(), |i: int| (members[i].0, members[i].1->String_0)))
        } else {
            None
        },
        _ => None,
    }
}

/// The names of the members that a derivation knows.
pub open spec fn spec_drv_members() -> Seq<Seq<char>> {
    seq!["outputs"@, "inputSrcs"@, "inputDrvs"@, "system"@, "builder"@, "args"@, "env"@]
}

/// Decodes one member of the kind `decode`: a member that is missing is
/// malformed.
pub open spec fn spec_required<T>(
    members: Members,
    name: Seq<char>,
    decode: spec_fn(JsonView) -> Option<T>,
) -> Option<T> {
    match spec_member(members, name) {
        Some(json) => decode(json),
        None => None,
    }
}

/// The derivation that a JSON document describes: an object with
/// `outputs`, `inputSrcs`, `inputDrvs`, `system`, `builder`, `args` and `env`,
/// each of its kind. What else the object holds is the `extra` of the
/// derivation.
pub open spec fn spec_decode_drv(json: JsonView) -> Option<DrvView> {
    match json {
        JsonView::Object(members) => {
            let outputs = spec_required(
                members,
                "outputs"@,
                |json: JsonView| spec_decode_outputs(json),
            );
            let input_srcs = spec_required_texts(members, "inputSrcs"@);
            let input_drvs = spec_required(
                members,
                "inputDrvs"@,
                |json: JsonView| spec_decode_input_drvs(json),
            );
            let system = spec_required_text(members, "system"@);
            let builder = spec_required_text(members, "builder"@);
            let args = spec_required_texts(members, "args"@);
            let env = spec_required(members, "env"@, |json: JsonView| spec_decode_env(json));
            if outputs is Some && input_srcs is Some && input_drvs is Some && system is Some
                && builder is Some && args is Some && env is Some {
                Some(
                    DrvView {
                        outputs: outputs->0,
                        input_srcs: input_srcs->0,
                        input_drvs: input_drvs->0,
                        system: system->0,
                        builder: builder->0,
                        args: args->0,
                        env: env->0,
                        extra: spec_extra(members, spec_drv_members()),
                    },
                )
            } else {
                None
            }
        },
        _ => None,
    }
}

/// The derivations that a JSON document describes: an object whose members
/// are derivations, each under its reference.
pub open spec fn spec_decode_drvs(json: JsonView) -> Option<Seq<(Seq<char>, DrvView)>> {
    match json {
        JsonView::Object(members) => if forall|i: int|
            0 <= i < members.len() ==> spec_decode_drv((#[trigger] members[i]).1) is Some {
            Some(
                Seq::new(
                    members.len(),
                    |i: int| (members[i].0, spec_decode_drv(members[i].1)->0),
                ),
            )
        } else {
            None
        },
        _ => None,
    }
}

/// Decodes one member of the kind `decode` that a record may have: a member
/// that is missing or null stands for nothing. A member of another kind is
/// malformed, which the outer `None` says.
pub open spec fn spec_optional<T>(
    members: Members,
    name: Seq<char>,
    decode: spec_fn(JsonView) -> Option<T>,
) -> Option<Option<T>> {
    match spec_member(members, name) {
        None => Some(None),
        Some(JsonView::Null) => Some(None),
        Some(json) => match decode(json) {
            Some(value) => Some(Some(value)),
            None => None,
        },
    }
}

/// The license that the members of a JSON object describe: `fullName`,
/// `shortName`, `spdxId` and `url`, each a string where it is there.
pub open spec fn spec_decode_license(members: Members) -> Option<LicenseView> {
    let full_name = spec_optional_text(members, "fullName"@);
    let short_name = spec_optional_text(members, "shortName"@);
    let spdx_id = spec_optional_text(members, "spdxId"@);
    let url = spec_optional_text(members, "url"@);
    if full_name is Some && short_name is Some && spdx_id is Some && url is Some {
        Some(
            LicenseView {
                full_name: full_name->0,
                short_name: short_name->0,
                spdx_id: spdx_id->0,
                url: url->0,
            },
        )
    } else {
        None
    }
}

/// The JSON document is an object that describes a license.
pub open spec fn spec_is_license(json: JsonView) -> bool {
    json is Object && spec_decode_license(json->Object_0) is Some
}

/// The license field that a JSON document describes. The shape of the
/// document decides: an object is one license, a string one name, an array of
/// license objects a list of licenses, an array of strings a list of names,
/// and any other array of license fields the special case.
pub open spec fn spec_decode_licenses(json: JsonView) -> Option<LicensesView>
    decreases json,
{
    match json {
        JsonView::Object(members) => match spec_decode_license(members) {
            Some(license) => Some(LicensesView::License(license)),
            None => None,
        },
        JsonView::String(name) => Some(LicensesView::NameOnly(name)),
        JsonView::Array(items) => if forall|i: int|
            0 <= i < items.len() ==> spec_is_license(#[trigger] items[i]) {
            Some(
                LicensesView::LicenseList(
                    Seq::new(items.len(), |i: int| spec_decode_license(items[i]->Object_0)->0),
                ),
            )
        } else if forall|i: int| 0 <= i < items.len() ==> (#[trigger] items[i]) is String {
            Some(LicensesView::NameOnlyList(Seq::new(items.len(), |i: int| items[i]->String_0)))
        } else if forall|i: int|
            0 <= i < items.len() ==> spec_decode_licenses(#[trigger] items[i]) is Some {
            Some(
                LicensesView::SpecialCase(
                    Seq::new(
                        items.len(),
                        |i: int|
                            if 0 <= i < items.len() {
                                spec_decode_licenses(items[i])->0
                            } else {
                                arbitrary()
                            },
                    ),
                ),
            )
        } else {
            None
        },
        _ => None,
    }
}

/// The homepage field that a JSON document describes: a string is one URL,
/// an array of strings a list of URLs.
pub open spec fn spec_decode_homepages(json: JsonView) -> Option<HomepagesView> {
    match json {
        JsonView::String(url) => Some(HomepagesView::Homepage(url)),
        JsonView::Array(items) => match spec_texts(json) {
            Some(urls) => Some(HomepagesView::HomepageList(urls)),
            None => None,
        },
        _ => None,
    }
}

/// The names of the members that a metadata block knows.
pub open spec fn spec_meta_members() -> Seq<Seq<char>> {
    seq!["license"@, "description"@, "homepage"@]
}

/// The metadata block that a JSON document describes: an object that may
/// have a `license`, a `description` and a `homepage`. What else the object
/// holds is the `extra` of the block.
pub open spec fn spec_decode_meta(json: JsonView) -> Option<MetaView> {
    match json {
        JsonView::Object(members) => {
            let license = spec_optional(
                members,
                "license"@,
                |json: JsonView| spec_decode_licenses(json),
            );
            let description = spec_optional_text(members, "description"@);
            let homepage = spec_optional(
                members,
                "homepage"@,
                |json: JsonView| spec_decode_homepages(json),
            );
            if license is Some && description is Some && homepage is Some {
                Some(
                    MetaView {
                        license: license->0,
                        description: description->0,
                        homepage: homepage->0,
                        extra: spec_extra(members, spec_meta_members()),
                    },
                )
            } else {
                None
            }
        },
        _ => None,
    }
}

/// The names of the members that a package knows.
pub open spec fn spec_package_members() -> Seq<Seq<char>> {
    seq!["name"@, "pname"@, "version"@, "meta"@]
}

/// The package that a JSON document describes: an object with a `name`, a
/// `pname`, a `version` and a `meta`. What else the object holds is the
/// `extra` of the package.
pub open spec fn spec_decode_package(json: JsonView) -> Option<PackageView> {
    match json {
        JsonView::Object(members) => {
            let name = spec_required_text(members, "name"@);
            let pname = spec_required_text(members, "pname"@);
            let version = spec_required_text(members, "version"@);
            let meta = spec_required(members, "meta"@, |json: JsonView| spec_decode_meta(json));
            if name is Some && pname is Some && version is Some && meta is Some {
                Some(
                    PackageView {
                        name: name->0,
                        pname: pname->0,
                        version: version->0,
                        meta: meta->0,
                        extra: spec_extra(members, spec_package_members()),
                    },
                )
            } else {
                None
            }
        },
        _ => None,
    }
}

/// The packages that a JSON document describes: an object whose members are
/// packages, each under the attribute that the catalog lists it by.
pub open spec fn spec_decode_packages(json: JsonView) -> Option<Seq<(Seq<char>, PackageView)>> {
    match json {
        JsonView::Object(members) => if forall|i: int|
            0 <= i < members.len() ==> spec_decode_package((#[trigger] members[i]).1) is Some {
            Some(
                Seq::new(
                    members.len(),
                    |i: int| (members[i].0, spec_decode_package(members[i].1)->0),
                ),
            )
        } else {
            None
        },
        _ => None,
    }
}

/// The value of a list of packages, each with the attribute it is listed by.
pub open spec fn packages_model(packages: Seq<(String, Package)>) -> Seq<(Seq<char>, PackageView)> {
    packages.map_values(|entry: (String, Package)| (entry.0@, entry.1.model()))
}

/// A member that is found is one of the members.
pub proof fn lemma_member_found(members: Members, name: Seq<char>) -> (i: int)
    requires
        spec_member(members, name) is Some,
    ensures
        0 <= i < members.len(),
        members[i] == (name, spec_member(members, name)->0),
    decreases members.len(),
{
    if members[0].0 == name {
        0
    } else {
        let rest = members.drop_first();
        let i = lemma_member_found(rest, name);
        assert(rest[i] == members[i + 1]);
        i + 1
    }
}

/// What a record keeps of the members of an object is a part of these
/// members, in their order: where no two of the members have one name, no
/// two of the kept ones have.
pub proof fn lemma_extra_names_differ(members: Members, known: Seq<Seq<char>>)
    requires
        member_names(members).no_duplicates(),
    ensures
        member_names(spec_extra(members, known)).no_duplicates(),
        forall|name: Seq<char>|
            member_names(spec_extra(members, known)).contains(name) ==> #[trigger] member_names(
                members,
            ).contains(name),
    decreases members.len(),
{
    if members.len() > 0 {
        let rest = members.drop_last();
        let last = members.last();
        assert(member_names(rest) =~= member_names(members).drop_last());
        lemma_extra_names_differ(rest, known);
        let kept = spec_extra(rest, known);
        assert forall|name: Seq<char>|
            member_names(spec_extra(members, known)).contains(name) implies #[trigger] member_names(
            members,
        ).contains(name) by {
            let all = member_names(spec_extra(members, known));
            let k = choose|k: int| 0 <= k < all.len() && all[k] == name;
            if k < kept.len() {
                assert(member_names(kept)[k] == name);
                assert(member_names(rest).contains(name));
                let m = choose|m: int| 0 <= m < rest.len() && member_names(rest)[m] == name;
                assert(member_names(members)[m] == name);
            } else {
                assert(member_names(members)[members.len() - 1] == name);
            }
        }
        if !known.contains(last.0) {
            assert(spec_extra(members, known) =~= kept + seq![last]);
            let all = member_names(spec_extra(members, known));
            assert forall|i: int, j: int| 0 <= i < all.len() && 0 <= j < all.len() && i != j implies all[i]
                != all[j] by {
                if i < kept.len() && j < kept.len() {
                    assert(member_names(kept)[i] != member_names(kept)[j]);
                } else {
                    let other = if i < kept.len() {
                        i
                    } else {
                        j
                    };
                    assert(member_names(kept)[other] == all[other]);
                    assert(member_names(kept).contains(all[other]));
                    assert(member_names(rest).contains(all[other]));
                    let m = choose|m: int|
                        0 <= m < rest.len() && member_names(rest)[m] == all[other];
                    assert(member_names(members)[m] == all[other]);
                    assert(member_names(members)[members.len() - 1] == last.0);
                }
            }
        }
    }
}

/// A derivation that is decoded from a document without objects that name a
/// member twice has no two entries of one name in any of its lists.
pub proof fn lemma_decode_drv_wf(json: JsonView)
    requires
        json.unique_names(),
        spec_decode_drv(json) is Some,
    ensures
        spec_decode_drv(json)->0.wf(),
{
    let members = json->Object_0;
    let drv = spec_decode_drv(json)->0;
    let at = lemma_member_found(members, "outputs"@);
    let outputs = members[at].1;
    assert(outputs.unique_names());
    assert(entry_names(drv.outputs) =~= member_names(outputs->Object_0));
    let at = lemma_member_found(members, "inputDrvs"@);
    let input_drvs = members[at].1;
    assert(input_drvs.unique_names());
    assert(entry_names(drv.input_drvs) =~= member_names(input_drvs->Object_0));
    let at = lemma_member_found(members, "env"@);
    let env = members[at].1;
    assert(env.unique_names());
    assert(entry_names(drv.env) =~= member_names(env->Object_0));
    lemma_extra_names_differ(members, spec_drv_members());
    assert(entry_names(drv.extra) =~= member_names(drv.extra));
}

/// The derivations that are decoded from a document without objects that
/// name a member twice are a map: no two have one reference, and none has two
/// entries of one name in any of its lists.
pub proof fn lemma_decode_drvs_wf(json: JsonView)
    requires
        json.unique_names(),
        spec_decode_drvs(json) is Some,
    ensures
        keys(spec_decode_drvs(json)->0).no_duplicates(),
        forall|i: int|
            0 <= i < spec_decode_drvs(json)->0.len() ==> (#[trigger] spec_decode_drvs(
                json,
            )->0[i]).1.wf(),
{
    let members = json->Object_0;
    let drvs = spec_decode_drvs(json)->0;
    assert(keys(drvs) =~= member_names(members));
    assert forall|i: int| 0 <= i < drvs.len() implies (#[trigger] drvs[i]).1.wf() by {
        assert(members[i].1.unique_names());
        lemma_decode_drv_wf(members[i].1);
    }
}

/// A package that is decoded from a document without objects that name a
/// member twice has no two entries of one name in any of its lists.
pub proof fn lemma_decode_package_wf(json: JsonView)
    requires
        json.unique_names(),
        spec_decode_package(json) is Some,
    ensures
        spec_decode_package(json)->0.wf(),
{
    let members = json->Object_0;
    let package = spec_decode_package(json)->0;
    lemma_extra_names_differ(members, spec_package_members());
    assert(entry_names(package.extra) =~= member_names(package.extra));
    let at = lemma_member_found(members, "meta"@);
    let meta = members[at].1;
    assert(meta.unique_names());
    lemma_extra_names_differ(meta->Object_0, spec_meta_members());
    assert(entry_names(package.meta.extra) =~= member_names(package.meta.extra));
}

/// The packages that are decoded from a document without objects that name
/// a member twice are a map: no two are listed by one attribute, and none has
/// two entries of one name in any of its lists.
pub proof fn lemma_decode_packages_wf(json: JsonView)
    requires
        json.unique_names(),
        spec_decode_packages(json) is Some,
    ensures
        entry_names(spec_decode_packages(json)->0).no_duplicates(),
        forall|i: int|
            0 <= i < spec_decode_packages(json)->0.len() ==> (#[trigger] spec_decode_packages(
                json,
            )->0[i]).1.wf(),
{
    let members = json->Object_0;
    let packages = spec_decode_packages(json)->0;
    assert(entry_names(packages) =~= member_names(members));
    assert forall|i: int| 0 <= i < packages.len() implies (#[trigger] packages[i]).1.wf() by {
        assert(members[i].1.unique_names());
        lemma_decode_package_wf(members[i].1);
    }
}

/// The members of an object are the values of its list of members.
pub proof fn lemma_object_model(json: Json)
    requires
        json is Object,
    ensures
        json.model() == JsonView::Object(members_model(json->Object_0@)),
{
    assert(json.model()->Object_0 =~= members_model(json->Object_0@));
}

/// The items of an array are the values of its list of items.
pub proof fn lemma_array_model(json: Json)
    requires
        json is Array,
    ensures
        json.model() is Array,
        json.model()->Array_0.len() == json->Array_0@.len(),
        forall|i: int|
            0 <= i < json->Array_0@.len() ==> json.model()->Array_0[i] == (
            #[trigger] json->Array_0@[i]).model(),
{
}

/// The first member of the given name.
pub fn member<'a>(members: &'a Vec<(String, Json)>, name: &str) -> (found: Option<&'a Json>)
    ensures
        match found {
            Some(json) => spec_member(members_model(members@), name@) == Some(json.model()),
            None => spec_member(members_model(members@), name@) is None,
        },
{
    let wanted = name.to_owned();
    let ghost all = members_model(members@);
    let mut i: usize = 0;
    proof {
        assert(all.skip(0) =~= all);
    }
    while i < members.len()
        invariant
            i <= members.len(),
            all == members_model(members@),
            wanted@ == name@,
            spec_member(all, name@) == spec_member(all.skip(i as int), name@),
        decreases members.len() - i,
    {
        proof {
            assert(all.skip(i as int).drop_first() =~= all.skip(i + 1));
        }
        if members[i].0 == wanted {
            return Some(&members[i].1);
        }
        i += 1;
    }
    None
}

/// Whether `name` is one of `known`.
fn is_known(name: &String, known: &Vec<String>) -> (found: bool)
    ensures
        found == known.deep_view().contains(name@),
{
    let mut i: usize = 0;
    while i < known.len()
        invariant
            i <= known.len(),
            forall|k: int| 0 <= k < i ==> known.deep_view()[k] != name@,
        decreases known.len() - i,
    {
        if known[i] == *name {
            assert(known.deep_view()[i as int] == name@);
            return true;
        }
        i += 1;
    }
    false
}

/// Copies of the members whose name is not among `known`.
pub fn extra(members: &Vec<(String, Json)>, known: &Vec<String>) -> (rest: Vec<(String, Json)>)
    ensures
        members_model(rest@) == spec_extra(members_model(members@), known.deep_view()),
{
    let ghost all = members_model(members@);
    let ghost names = known.deep_view();
    let mut rest: Vec<(String, Json)> = Vec::new();
    let mut i: usize = 0;
    while i < members.len()
        invariant
            i <= members.len(),
            all == members_model(members@),
            names == known.deep_view(),
            members_model(rest@) == spec_extra(all.take(i as int), names),
        decreases members.len() - i,
    {
        proof {
            assert(all.take(i + 1).drop_last() =~= all.take(i as int));
        }
        if !is_known(&members[i].0, known) {
            rest.push((members[i].0.clone(), members[i].1.clone()));
        }
        i += 1;
    }
    proof {
        assert(all.take(i as int) =~= all);
    }
    rest
}

/// The text of a JSON string.
pub fn text(json: &Json) -> (found: Option<String>)
    ensures
        found.deep_view() == spec_text(json.model()),
{
    match json {
        Json::String(text) => Some(text.clone()),
        _ => None,
    }
}

/// The text of a member that a record must have.
pub fn required_text(members: &Vec<(String, Json)>, name: &str) -> (found: Option<String>)
    ensures
        found.deep_view() == spec_required_text(members_model(members@), name@),
{
    match member(members, name) {
        Some(json) => text(json),
        None => None,
    }
}

/// The text of a member that a record may have.
pub fn optional_text(members: &Vec<(String, Json)>, name: &str) -> (found: Option<Option<String>>)
    ensures
        found.deep_view() == spec_optional_text(members_model(members@), name@),
{
    match member(members, name) {
        None => Some(None),
        Some(Json::Null) => Some(None),
        Some(Json::String(text)) => Some(Some(text.clone())),
        Some(_) => None,
    }
}

/// The texts of a JSON array of strings.
pub fn texts(json: &Json) -> (found: Option<Vec<String>>)
    ensures
        found.deep_view() == spec_texts(json.model()),
{
    match json {
        Json::Array(items) => {
            proof {
                lemma_array_model(*json);
            }
            let ghost all = json.model()->Array_0;
            let mut found: Vec<String> = Vec::new();
            let mut i: usize = 0;
            while i < items.len()
                invariant
                    i <= items.len(),
                    json.model() == JsonView::Array(all),
                    all.len() == items@.len(),
                    forall|k: int| 0 <= k < items@.len() ==> all[k] == (#[trigger] items@[k]).model(),
                    found.len() == i,
                    forall|k: int|
                        0 <= k < i ==> (#[trigger] all[k]) is String && all[k]->String_0
                            == found@[k]@,
                decreases items.len() - i,
            {
                match &items[i] {
                    Json::String(text) => {
                        found.push(text.clone());
                    },
                    _ => {
                        return None;
                    },
                }
                i += 1;
            }
            Some(found)
        },
        _ => None,
    }
}

/// The texts of a member that a record must have.
pub fn required_texts(members: &Vec<(String, Json)>, name: &str) -> (found: Option<Vec<String>>)
    ensures
        found.deep_view() == spec_required_texts(members_model(members@), name@),
{
    match member(members, name) {
        Some(json) => texts(json),
        None => None,
    }
}

/// The output that a JSON document describes.
pub fn decode_out(json: &Json) -> (found: Option<Out>)
    ensures
        match found {
            Some(out) => spec_decode_out(json.model()) == Some(out.model()),
            None => spec_decode_out(json.model()) is None,
        },
{
    match json {
        Json::Object(members) => {
            proof {
                lemma_object_model(*json);
            }
            let path = required_text(members, "path");
            let hash_algo = optional_text(members, "hashAlgo");
            let hash = optional_text(members, "hash");
            match (path, hash_algo, hash) {
                (Some(path), Some(hash_algo), Some(hash)) => Some(Out { path, hash_algo, hash }),
                _ => None,
            }
        },
        _ => None,
    }
}

/// The outputs that a JSON document describes.
pub fn decode_outputs(json: &Json) -> (found: Option<Vec<(String, Out)>>)
    ensures
        match found {
            Some(outputs) => spec_decode_outputs(json.model()) == Some(outputs_model(outputs@)),
            None => spec_decode_outputs(json.model()) is None,
        },
{
    match json {
        Json::Object(members) => {
            proof {
                lemma_object_model(*json);
            }
            let ghost all = members_model(members@);
            let mut outputs: Vec<(String, Out)> = Vec::new();
            let mut i: usize = 0;
            while i < members.len()
                invariant
                    i <= members.len(),
                    json.model() == JsonView::Object(all),
                    all == members_model(members@),
                    outputs.len() == i,
                    forall|k: int|
                        0 <= k < i ==> spec_decode_out((#[trigger] all[k]).1) == Some(
                            outputs@[k].1.model(),
                        ) && outputs@[k].0@ == all[k].0,
                decreases members.len() - i,
            {
                match decode_out(&members[i].1) {
                    Some(out) => {
                        outputs.push((members[i].0.clone(), out));
                    },
                    None => {
                        assert(spec_decode_out(all[i as int].1) is None);
                        return None;
                    },
                }
                i += 1;
            }
            Some(outputs)
        },
        _ => None,
    }
}

/// The input derivations that a JSON document describes.
pub fn decode_input_drvs(json: &Json) -> (found: Option<Vec<(String, Vec<String>)>>)
    ensures
        found.deep_view() == spec_decode_input_drvs(json.model()),
{
    match json {
        Json::Object(members) => {
            proof {
                lemma_object_model(*json);
            }
            let ghost all = members_model(members@);
            let mut inputs: Vec<(String, Vec<String>)> = Vec::new();
            let mut i: usize = 0;
            while i < members.len()
                invariant
                    i <= members.len(),
                    json.model() == JsonView::Object(all),
                    all == members_model(members@),
                    inputs.len() == i,
                    forall|k: int|
                        0 <= k < i ==> spec_texts((#[trigger] all[k]).1) == Some(
                            inputs@[k].1.deep_view(),
                        ) && inputs@[k].0@ == all[k].0,
                decreases members.len() - i,
            {
                match texts(&members[i].1) {
                    Some(consumed) => {
                        inputs.push((members[i].0.clone(), consumed));
                    },
                    None => {
                        assert(spec_texts(all[i as int].1) is None);
                        return None;
                    },
                }
                i += 1;
            }
            Some(inputs)
        },
        _ => None,
    }
}

/// The environment that a JSON document describes.
pub fn decode_env(json: &Json) -> (found: Option<Vec<(String, String)>>)
    ensures
        found.deep_view() == spec_decode_env(json.model()),
{
    match json {
        Json::Object(members) => {
            proof {
                lemma_object_model(*json);
            }
            let ghost all = members_model(members@);
            let mut env: Vec<(String, String)> = Vec::new();
            let mut i: usize = 0;
            while i < members.len()
                invariant
                    i <= members.len(),
                    json.model() == JsonView::Object(all),
                    all == members_model(members@),
                    env.len() == i,
                    forall|k: int|
                        0 <= k < i ==> (#[trigger] all[k]).1 is String && all[k].1->String_0
                            == env@[k].1@ && env@[k].0@ == all[k].0,
                decreases members.len() - i,
            {
                match &members[i].1 {
                    Json::String(value) => {
                        env.push((members[i].0.clone(), value.clone()));
                    },
                    _ => {
                        assert(!(all[i as int].1 is String));
                        return None;
                    },
                }
                i += 1;
            }
            Some(env)
        },
        _ => None,
    }
}

/// The names of the members that a derivation knows.
fn drv_members() -> (names: Vec<String>)
    ensures
        names.deep_view() == spec_drv_members(),
{
    let mut names: Vec<String> = Vec::new();
    names.push("outputs".to_owned());
    names.push("inputSrcs".to_owned());
    names.push("inputDrvs".to_owned());
    names.push("system".to_owned());
    names.push("builder".to_owned());
    names.push("args".to_owned());
    names.push("env".to_owned());
    names
}

/// The derivation that a JSON document describes.
pub fn decode_drv(json: &Json) -> (found: Option<Drv>)
    ensures
        match found {
            Some(drv) => spec_decode_drv(json.model()) == Some(drv.model()),
            None => spec_decode_drv(json.model()) is None,
        },
{
    match json {
        Json::Object(members) => {
            proof {
                lemma_object_model(*json);
            }
            let outputs = match member(members, "outputs") {
                Some(json) => decode_outputs(json),
                None => None,
            };
            let input_srcs = required_texts(members, "inputSrcs");
            let input_drvs = match member(members, "inputDrvs") {
                Some(json) => decode_input_drvs(json),
                None => None,
            };
            let system = required_text(members, "system");
            let builder = required_text(members, "builder");
            let args = required_texts(members, "args");
            let env = match member(members, "env") {
                Some(json) => decode_env(json),
                None => None,
            };
            match (outputs, input_srcs, input_drvs, system, builder, args, env) {
                (
                    Some(outputs),
                    Some(input_srcs),
                    Some(input_drvs),
                    Some(system),
                    Some(builder),
                    Some(args),
                    Some(env),
                ) => {
                    let extra = extra(members, &drv_members());
                    Some(
                        Drv { outputs, input_srcs, input_drvs, system, builder, args, env, extra },
                    )
                },
                _ => None,
            }
        },
        _ => None,
    }
}

/// The derivations that a JSON document describes, each under its
/// reference.
pub fn decode_drvs(json: &Json) -> (found: Option<Vec<(String, Drv)>>)
    ensures
        match found {
            Some(drvs) => spec_decode_drvs(json.model()) == Some(drvs_model(drvs@)),
            None => spec_decode_drvs(json.model()) is None,
        },
{
    match json {
        Json::Object(members) => {
            proof {
                lemma_object_model(*json);
            }
            let ghost all = members_model(members@);
            let mut drvs: Vec<(String, Drv)> = Vec::new();
            let mut i: usize = 0;
            while i < members.len()
                invariant
                    i <= members.len(),
                    json.model() == JsonView::Object(all),
                    all == members_model(members@),
                    drvs.len() == i,
                    forall|k: int|
                        0 <= k < i ==> spec_decode_drv((#[trigger] all[k]).1) == Some(
                            drvs@[k].1.model(),
                        ) && drvs@[k].0@ == all[k].0,
                decreases members.len() - i,
            {
                match decode_drv(&members[i].1) {
                    Some(drv) => {
                        drvs.push((members[i].0.clone(), drv));
                    },
                    None => {
                        assert(spec_decode_drv(all[i as int].1) is None);
                        return None;
                    },
                }
                i += 1;
            }
            Some(drvs)
        },
        _ => None,
    }
}

/// The license that the members of a JSON object describe.
pub fn decode_license(members: &Vec<(String, Json)>) -> (found: Option<License>)
    ensures
        match found {
            Some(license) => spec_decode_license(members_model(members@)) == Some(license.model()),
            None => spec_decode_license(members_model(members@)) is None,
        },
{
    let full_name = optional_text(members, "fullName");
    let short_name = optional_text(members, "shortName");
    let spdx_id = optional_text(members, "spdxId");
    let url = optional_text(members, "url");
    match (full_name, short_name, spdx_id, url) {
        (Some(full_name), Some(short_name), Some(spdx_id), Some(url)) => Some(
            License { full_name, short_name, spdx_id, url },
        ),
        _ => None,
    }
}

/// The licenses that the items of a JSON array describe, if each item is an
/// object that describes a license.
fn decode_license_list(items: &Vec<Json>) -> (found: Option<Vec<License>>)
    ensures
        match found {
            Some(licenses) => {
                &&& licenses@.len() == items@.len()
                &&& forall|i: int|
                    0 <= i < items@.len() ==> spec_is_license((#[trigger] items@[i]).model())
                        && spec_decode_license(items@[i].model()->Object_0) == Some(
                        licenses@[i].model(),
                    )
            },
            None => exists|i: int|
                0 <= i < items@.len() && !spec_is_license((#[trigger] items@[i]).model()),
        },
{
    let mut licenses: Vec<License> = Vec::new();
    let mut i: usize = 0;
    while i < items.len()
        invariant
            i <= items.len(),
            licenses.len() == i,
            forall|k: int|
                0 <= k < i ==> spec_is_license((#[trigger] items@[k]).model())
                    && spec_decode_license(items@[k].model()->Object_0) == Some(
                    licenses@[k].model(),
                ),
        decreases items.len() - i,
    {
        match &items[i] {
            Json::Object(members) => {
                proof {
                    lemma_object_model(items@[i as int]);
                }
                match decode_license(members) {
                    Some(license) => {
                        licenses.push(license);
                    },
                    None => {
                        return None;
                    },
                }
            },
            _ => {
                return None;
            },
        }
        i += 1;
    }
    Some(licenses)
}

/// The license field that a JSON document describes.
pub fn decode_licenses(json: &Json) -> (found: Option<Licenses>)
    ensures
        match found {
            Some(licenses) => spec_decode_licenses(json.model()) == Some(licenses.model()),
            None => spec_decode_licenses(json.model()) is None,
        },
    decreases json,
{
    match json {
        Json::Object(members) => {
            proof {
                lemma_object_model(*json);
            }
            match decode_license(members) {
                Some(license) => Some(Licenses::License(license)),
                None => None,
            }
        },
        Json::String(name) => Some(Licenses::NameOnly(name.clone())),
        Json::Array(items) => {
            proof {
                lemma_array_model(*json);
            }
            let ghost all = json.model()->Array_0;
            match decode_license_list(items) {
                Some(licenses) => {
                    let found = Licenses::LicenseList(licenses);
                    assert(found.model()->LicenseList_0 =~= spec_decode_licenses(
                        json.model(),
                    )->0->LicenseList_0);
                    return Some(found);
                },
                None => {},
            }
            match texts(json) {
                Some(names) => {
                    let found = Licenses::NameOnlyList(names);
                    return Some(found);
                },
                None => {},
            }
            let mut nested: Vec<Licenses> = Vec::new();
            let mut i: usize = 0;
            while i < items.len()
                invariant
                    i <= items.len(),
                    json is Array && json->Array_0 == *items,
                    json.model() == JsonView::Array(all),
                    all.len() == items@.len(),
                    forall|k: int| 0 <= k < items@.len() ==> all[k] == (#[trigger] items@[k]).model(),
                    !(forall|k: int| 0 <= k < all.len() ==> spec_is_license(#[trigger] all[k])),
                    !(forall|k: int| 0 <= k < all.len() ==> (#[trigger] all[k]) is String),
                    nested.len() == i,
                    forall|k: int|
                        0 <= k < i ==> spec_decode_licenses(#[trigger] all[k]) == Some(
                            nested@[k].model(),
                        ),
                decreases items.len() - i,
            {
                match decode_licenses(&items[i]) {
                    Some(licenses) => {
                        nested.push(licenses);
                    },
                    None => {
                        return None;
                    },
                }
                i += 1;
            }
            let found = Licenses::SpecialCase(nested);
            assert(found.model()->SpecialCase_0 =~= spec_decode_licenses(
                json.model(),
            )->0->SpecialCase_0);
            Some(found)
        },
        _ => None,
    }
}

/// The homepage field that a JSON document describes.
pub fn decode_homepages(json: &Json) -> (found: Option<Homepages>)
    ensures
        match found {
            Some(homepages) => spec_decode_homepages(json.model()) == Some(homepages.model()),
            None => spec_decode_homepages(json.model()) is None,
        },
{
    match json {
        Json::String(url) => Some(Homepages::Homepage(url.clone())),
        Json::Array(_) => {
            proof {
                lemma_array_model(*json);
            }
            match texts(json) {
                Some(urls) => Some(Homepages::HomepageList(urls)),
                None => None,
            }
        },
        _ => None,
    }
}

/// The names of the members that a metadata block knows.
fn meta_members() -> (names: Vec<String>)
    ensures
        names.deep_view() == spec_meta_members(),
{
    let mut names: Vec<String> = Vec::new();
    names.push("license".to_owned());
    names.push("description".to_owned());
    names.push("homepage".to_owned());
    names
}

/// The metadata block that a JSON document describes.
pub fn decode_meta(json: &Json) -> (found: Option<Meta>)
    ensures
        match found {
            Some(meta) => spec_decode_meta(json.model()) == Some(meta.model()),
            None => spec_decode_meta(json.model()) is None,
        },
{
    match json {
        Json::Object(members) => {
            proof {
                lemma_object_model(*json);
            }
            let license = match member(members, "license") {
                None => Some(None),
                Some(Json::Null) => Some(None),
                Some(json) => match decode_licenses(json) {
                    Some(licenses) => Some(Some(licenses)),
                    None => None,
                },
            };
            let description = optional_text(members, "description");
            let homepage = match member(members, "homepage") {
                None => Some(None),
                Some(Json::Null) => Some(None),
                Some(json) => match decode_homepages(json) {
                    Some(homepages) => Some(Some(homepages)),
                    None => None,
                },
            };
            match (license, description, homepage) {
                (Some(license), Some(description), Some(homepage)) => {
                    let extra = extra(members, &meta_members());
                    Some(Meta { license, description, homepage, extra })
                },
                _ => None,
            }
        },
        _ => None,
    }
}

/// The names of the members that a package knows.
fn package_members() -> (names: Vec<String>)
    ensures
        names.deep_view() == spec_package_members(),
{
    let mut names: Vec<String> = Vec::new();
    names.push("name".to_owned());
    names.push("pname".to_owned());
    names.push("version".to_owned());
    names.push("meta".to_owned());
    names
}

/// The package that a JSON document describes.
pub fn decode_package(json: &Json) -> (found: Option<Package>)
    ensures
        match found {
            Some(package) => spec_decode_package(json.model()) == Some(package.model()),
            None => spec_decode_package(json.model()) is None,
        },
{
    match json {
        Json::Object(members) => {
            proof {
                lemma_object_model(*json);
            }
            let name = required_text(members, "name");
            let pname = required_text(members, "pname");
            let version = required_text(members, "version");
            let meta = match member(members, "meta") {
                Some(json) => decode_meta(json),
                None => None,
            };
            match (name, pname, version, meta) {
                (Some(name), Some(pname), Some(version), Some(meta)) => {
                    let extra = extra(members, &package_members());
                    Some(Package { name, pname, version, meta, extra })
                },
                _ => None,
            }
        },
        _ => None,
    }
}

/// The packages that a JSON document describes, each under the attribute
/// that the catalog lists it by.
pub fn decode_packages(json: &Json) -> (found: Option<Vec<(String, Package)>>)
    ensures
        match found {
            Some(packages) => spec_decode_packages(json.model()) == Some(
                packages_model(packages@),
            ),
            None => spec_decode_packages(json.model()) is None,
        },
{
    match json {
        Json::Object(members) => {
            proof {
                lemma_object_model(*json);
            }
            let ghost all = members_model(members@);
            let mut packages: Vec<(String, Package)> = Vec::new();
            let mut i: usize = 0;
            while i < members.len()
                invariant
                    i <= members.len(),
                    json.model() == JsonView::Object(all),
                    all == members_model(members@),
                    packages.len() == i,
                    forall|k: int|
                        0 <= k < i ==> spec_decode_package((#[trigger] all[k]).1) == Some(
                            packages@[k].1.model(),
                        ) && packages@[k].0@ == all[k].0,
                decreases members.len() - i,
            {
                match decode_package(&members[i].1) {
                    Some(package) => {
                        packages.push((members[i].0.clone(), package));
                    },
                    None => {
                        assert(spec_decode_package(all[i as int].1) is None);
                        return None;
                    },
                }
                i += 1;
            }
            Some(packages)
        },
        _ => None,
    }
}

} // verus!
