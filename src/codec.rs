//! The mapping between the document and its JSON form.
//!
//! Each record becomes an object whose members follow the order in which the
//! record declares its fields. An absent optional field is left out of the
//! object; it is never written as `null`.
use vstd::prelude::*;
use crate::document::{doc_insert, has_key, keys_distinct, DocModel, Document};
use crate::json::{
    items_of, json_view, lemma_arr_view, lemma_lookup_absent, lemma_lookup_at, lemma_obj_view,
    lookup, lookup_member, members_of, Json, JsonValue, Member, Members,
};
use crate::model::{
    strings_view, BetaProject, GroupData, GroupModel, Package, PackageModel, Palette, Project,
    ProjectModel,
};

verus! {

/// What can go wrong while loading the document.
#[derive(Debug, Clone, Copy, PartialEq, Eq, Structural)]
pub enum FetchError {
    /// The connection could not be made or was lost.
    NetworkError,
    /// The server answered with a status outside 200 to 299.
    HttpError(u16),
    /// The body is not JSON, or not of the document's shape.
    ParseError,
}

// ----- the JSON form of each record -----

/// A member for `v`, or none where `v` is absent.
pub open spec fn optional_member(k: Seq<char>, v: Option<JsonValue>) -> Members {
    match v {
        Some(x) => seq![(k, x)],
        None => Seq::empty(),
    }
}

pub open spec fn strings_value(s: Seq<Seq<char>>) -> JsonValue {
    JsonValue::Arr(s.map_values(|x: Seq<char>| JsonValue::Str(x)))
}

pub open spec fn package_value(m: PackageModel) -> JsonValue {
    JsonValue::Obj(
        seq![
            ("owner"@, JsonValue::Str(m.owner)),
            ("repoName"@, JsonValue::Str(m.repo_name)),
            ("version"@, JsonValue::Str(m.version)),
            ("fileName"@, JsonValue::Str(m.file_name)),
        ],
    )
}

pub open spec fn project_members(m: ProjectModel) -> Members {
    seq![
        ("name"@, JsonValue::Str(m.name)),
        ("version"@, JsonValue::Str(m.version)),
        ("date"@, JsonValue::Str(m.date)),
        ("changelog"@, JsonValue::Str(m.changelog)),
        ("overview"@, JsonValue::Str(m.overview)),
        ("description"@, JsonValue::Str(m.description)),
        ("background"@, JsonValue::Str(m.background)),
    ] + optional_member(
        "pageBackground"@,
        match m.page_background {
            Some(s) => Some(JsonValue::Str(s)),
            None => None,
        },
    ) + optional_member(
        "variants"@,
        match m.variants {
            Some(v) => Some(strings_value(v)),
            None => None,
        },
    ) + optional_member(
        "package"@,
        match m.package {
            Some(p) => Some(package_value(p)),
            None => None,
        },
    )
}

pub open spec fn project_value(m: ProjectModel) -> JsonValue {
    JsonValue::Obj(project_members(m))
}

pub open spec fn group_members(m: GroupModel) -> Members {
    seq![
        ("name"@, JsonValue::Str(m.name)),
        ("projects"@, JsonValue::Arr(m.projects.map_values(|p: ProjectModel| project_value(p)))),
        ("beta"@, JsonValue::Obj(seq![("background"@, JsonValue::Str(m.beta_background))])),
        ("logo"@, JsonValue::Str(m.logo)),
    ] + optional_member(
        "update"@,
        match m.update {
            Some(b) => Some(JsonValue::Bool(b)),
            None => None,
        },
    ) + seq![
        ("path"@, JsonValue::Str(m.path)),
        (
            "palette"@,
            JsonValue::Obj(
                seq![
                    ("primary"@, JsonValue::Str(m.primary)),
                    ("secondary"@, JsonValue::Str(m.secondary)),
                ],
            ),
        ),
    ]
}

pub open spec fn group_value(m: GroupModel) -> JsonValue {
    JsonValue::Obj(group_members(m))
}

/// The document as one object, a member per group under the group's name.
pub open spec fn document_value(d: DocModel) -> JsonValue {
    JsonValue::Obj(d.map_values(|e: (Seq<char>, GroupModel)| (e.0, group_value(e.1))))
}

// ----- encoding -----

fn text(s: &String) -> (j: Json)
    ensures
        j@ == JsonValue::Str(s@),
{
    Json::Str(s.clone())
}

fn member(key: &str, value: Json) -> (m: Member)
    ensures
        m.key@ == key@,
        m.value == value,
{
    Member { key: key.to_owned(), value }
}

fn push_optional(ms: &mut Vec<Member>, key: &str, value: Option<Json>)
    ensures
        members_of(final(ms)@) == members_of(old(ms)@) + optional_member(
            key@,
            match value {
                Some(v) => Some(v@),
                None => None,
            },
        ),
{
    match value {
        Some(v) => {
            ms.push(member(key, v));
            assert(members_of(ms@) =~= members_of(old(ms)@) + seq![(key@, v@)]);
        },
        None => {
            assert(members_of(ms@) =~= members_of(old(ms)@) + Seq::empty());
        },
    }
}

fn strings_to_json(v: &Vec<String>) -> (j: Json)
    ensures
        j@ == strings_value(strings_view(v@)),
{
    let mut items: Vec<Json> = Vec::new();
    for i in 0..v.len()
        invariant
            items@.len() == i,
            forall|k: int| 0 <= k < i ==> json_view(#[trigger] items@[k]) == JsonValue::Str(v@[k]@),
    {
        items.push(text(&v[i]));
    }
    proof {
        lemma_arr_view(items);
        assert(items_of(items@) =~= strings_view(v@).map_values(|x: Seq<char>| JsonValue::Str(x)));
    }
    Json::Arr(items)
}

/// The JSON form of a package.
pub fn package_to_json(p: &Package) -> (j: Json)
    ensures
        j@ == package_value(p@),
{
    let mut ms: Vec<Member> = Vec::new();
    ms.push(member("owner", text(&p.owner)));
    ms.push(member("repoName", text(&p.repoName)));
    ms.push(member("version", text(&p.version)));
    ms.push(member("fileName", text(&p.fileName)));
    proof {
        lemma_obj_view(ms);
        assert(members_of(ms@) =~= package_value(p@)->Obj_0);
    }
    Json::Obj(ms)
}

/// The JSON form of a project; absent optional fields are left out.
pub fn project_to_json(p: &Project) -> (j: Json)
    ensures
        j@ == project_value(p@),
{
    let mut ms: Vec<Member> = Vec::new();
    ms.push(member("name", text(&p.name)));
    ms.push(member("version", text(&p.version)));
    ms.push(member("date", text(&p.date)));
    ms.push(member("changelog", text(&p.changelog)));
    ms.push(member("overview", text(&p.overview)));
    ms.push(member("description", text(&p.description)));
    ms.push(member("background", text(&p.background)));
    let ghost fixed = members_of(ms@);
    assert(fixed =~= seq![
        ("name"@, JsonValue::Str(p.name@)),
        ("version"@, JsonValue::Str(p.version@)),
        ("date"@, JsonValue::Str(p.date@)),
        ("changelog"@, JsonValue::Str(p.changelog@)),
        ("overview"@, JsonValue::Str(p.overview@)),
        ("description"@, JsonValue::Str(p.description@)),
        ("background"@, JsonValue::Str(p.background@)),
    ]);
    let page = match &p.pageBackground {
        Some(s) => Some(text(s)),
        None => None,
    };
    push_optional(&mut ms, "pageBackground", page);
    let variants = match &p.variants {
        Some(v) => Some(strings_to_json(v)),
        None => None,
    };
    push_optional(&mut ms, "variants", variants);
    let package = match &p.package {
        Some(k) => Some(package_to_json(k)),
        None => None,
    };
    push_optional(&mut ms, "package", package);
    proof {
        lemma_obj_view(ms);
        assert(members_of(ms@) =~= project_members(p@));
    }
    Json::Obj(ms)
}

/// The JSON form of a group; an absent update flag is left out.
pub fn group_to_json(g: &GroupData) -> (j: Json)
    ensures
        j@ == group_value(g@),
{
    let mut projects: Vec<Json> = Vec::new();
    for i in 0..g.projects.len()
        invariant
            projects@.len() == i,
            forall|k: int|
                0 <= k < i ==> json_view(#[trigger] projects@[k]) == project_value(
                    g.projects@[k]@,
                ),
    {
        projects.push(project_to_json(&g.projects[i]));
    }
    proof {
        lemma_arr_view(projects);
        assert(items_of(projects@) =~= g@.projects.map_values(|p: ProjectModel| project_value(p)));
    }
    let mut beta: Vec<Member> = Vec::new();
    beta.push(member("background", text(&g.beta.background)));
    proof {
        lemma_obj_view(beta);
        assert(members_of(beta@) =~= seq![("background"@, JsonValue::Str(g@.beta_background))]);
    }
    let mut palette: Vec<Member> = Vec::new();
    palette.push(member("primary", text(&g.palette.primary)));
    palette.push(member("secondary", text(&g.palette.secondary)));
    proof {
        lemma_obj_view(palette);
        assert(members_of(palette@) =~= seq![
            ("primary"@, JsonValue::Str(g@.primary)),
            ("secondary"@, JsonValue::Str(g@.secondary)),
        ]);
    }
    let mut ms: Vec<Member> = Vec::new();
    ms.push(member("name", text(&g.name)));
    ms.push(member("projects", Json::Arr(projects)));
    ms.push(member("beta", Json::Obj(beta)));
    ms.push(member("logo", text(&g.logo)));
    let update = match g.update {
        Some(b) => Some(Json::Bool(b)),
        None => None,
    };
    push_optional(&mut ms, "update", update);
    let ghost before = members_of(ms@);
    ms.push(member("path", text(&g.path)));
    ms.push(member("palette", Json::Obj(palette)));
    proof {
        lemma_obj_view(ms);
        assert(members_of(ms@) =~= before + seq![
            ("path"@, JsonValue::Str(g@.path)),
            ("palette"@, json_view(Json::Obj(palette))),
        ]);
        assert(members_of(ms@) =~= group_members(g@));
    }
    Json::Obj(ms)
}

/// The JSON form of the whole document: one member per group, in entry order.
pub fn document_to_json(d: &Document) -> (j: Json)
    ensures
        j@ == document_value(d@),
{
    let mut ms: Vec<Member> = Vec::new();
    let n = d.len();
    for i in 0..n
        invariant
            n == d@.len(),
            ms@.len() == i,
            forall|k: int|
                0 <= k < i ==> (#[trigger] ms@[k]).key@ == d@[k].0 && json_view(ms@[k].value)
                    == group_value(d@[k].1),
    {
        let (name, group) = d.entry(i);
        ms.push(Member { key: name.clone(), value: group_to_json(group) });
    }
    proof {
        lemma_obj_view(ms);
        assert(members_of(ms@) =~= document_value(d@)->Obj_0);
    }
    Json::Obj(ms)
}

// ----- decoding -----

/// The text of member `k`; none where it is missing or not a string.
pub open spec fn string_member(ms: Members, k: Seq<char>) -> Option<Seq<char>> {
    match lookup(ms, k) {
        Some(JsonValue::Str(s)) => Some(s),
        _ => None,
    }
}

/// An optional member decoded by `f`: a missing member or `null` is absent,
/// a value that `f` refuses makes the whole member fail.
pub open spec fn optional_of<T>(v: Option<JsonValue>, f: spec_fn(JsonValue) -> Option<T>) -> Option<
    Option<T>,
> {
    match v {
        None => Some(None),
        Some(JsonValue::Null) => Some(None),
        Some(x) => match f(x) {
            Some(t) => Some(Some(t)),
            None => None,
        },
    }
}

pub open spec fn text_of(v: JsonValue) -> Option<Seq<char>> {
    match v {
        JsonValue::Str(s) => Some(s),
        _ => None,
    }
}

pub open spec fn bool_of(v: JsonValue) -> Option<bool> {
    match v {
        JsonValue::Bool(b) => Some(b),
        _ => None,
    }
}

/// An array of strings.
pub open spec fn strings_of(v: JsonValue) -> Option<Seq<Seq<char>>> {
    match v {
        JsonValue::Arr(items) => if forall|i: int|
            0 <= i < items.len() ==> #[trigger] items[i] is Str {
            Some(items.map_values(|x: JsonValue| x->Str_0))
        } else {
            None
        },
        _ => None,
    }
}

pub open spec fn package_of(v: JsonValue) -> Option<PackageModel> {
    match v {
        JsonValue::Obj(ms) => {
            let owner = string_member(ms, "owner"@);
            let repo_name = string_member(ms, "repoName"@);
            let version = string_member(ms, "version"@);
            let file_name = string_member(ms, "fileName"@);
            if owner is Some && repo_name is Some && version is Some && file_name is Some {
                Some(
                    PackageModel {
                        owner: owner->Some_0,
                        repo_name: repo_name->Some_0,
                        version: version->Some_0,
                        file_name: file_name->Some_0,
                    },
                )
            } else {
                None
            }
        },
        _ => None,
    }
}

pub open spec fn project_of(v: JsonValue) -> Option<ProjectModel> {
    match v {
        JsonValue::Obj(ms) => {
            let name = string_member(ms, "name"@);
            let version = string_member(ms, "version"@);
            let date = string_member(ms, "date"@);
            let changelog = string_member(ms, "changelog"@);
            let overview = string_member(ms, "overview"@);
            let description = string_member(ms, "description"@);
            let background = string_member(ms, "background"@);
            let page = optional_of(lookup(ms, "pageBackground"@), |x: JsonValue| text_of(x));
            let variants = optional_of(lookup(ms, "variants"@), |x: JsonValue| strings_of(x));
            let package = optional_of(lookup(ms, "package"@), |x: JsonValue| package_of(x));
            if name is Some && version is Some && date is Some && changelog is Some
                && overview is Some && description is Some && background is Some && page is Some && variants is Some
                && package is Some {
                Some(
                    ProjectModel {
                        name: name->Some_0,
                        version: version->Some_0,
                        date: date->Some_0,
                        changelog: changelog->Some_0,
                        overview: overview->Some_0,
                        description: description->Some_0,
                        background: background->Some_0,
                        page_background: page->Some_0,
                        variants: variants->Some_0,
                        package: package->Some_0,
                    },
                )
            } else {
                None
            }
        },
        _ => None,
    }
}

/// An array of projects.
pub open spec fn projects_of(v: JsonValue) -> Option<Seq<ProjectModel>> {
    match v {
        JsonValue::Arr(items) => if forall|i: int|
            0 <= i < items.len() ==> #[trigger] project_of(items[i]) is Some {
            Some(items.map_values(|x: JsonValue| project_of(x)->Some_0))
        } else {
            None
        },
        _ => None,
    }
}

/// The object `v`'s member `k`, read as a string.
pub open spec fn nested_string(v: Option<JsonValue>, k: Seq<char>) -> Option<Seq<char>> {
    match v {
        Some(JsonValue::Obj(ms)) => string_member(ms, k),
        _ => None,
    }
}

pub open spec fn group_of(v: JsonValue) -> Option<GroupModel> {
    match v {
        JsonValue::Obj(ms) => {
            let name = string_member(ms, "name"@);
            let projects = match lookup(ms, "projects"@) {
                Some(p) => projects_of(p),
                None => None,
            };
            let beta = nested_string(lookup(ms, "beta"@), "background"@);
            let logo = string_member(ms, "logo"@);
            let update = optional_of(lookup(ms, "update"@), |x: JsonValue| bool_of(x));
            let path = string_member(ms, "path"@);
            let primary = nested_string(lookup(ms, "palette"@), "primary"@);
            let secondary = nested_string(lookup(ms, "palette"@), "secondary"@);
            if name is Some && projects is Some && beta is Some && logo is Some && update is Some
                && path is Some && primary is Some && secondary is Some {
                Some(
                    GroupModel {
                        name: name->Some_0,
                        projects: projects->Some_0,
                        beta_background: beta->Some_0,
                        logo: logo->Some_0,
                        update: update->Some_0,
                        path: path->Some_0,
                        primary: primary->Some_0,
                        secondary: secondary->Some_0,
                    },
                )
            } else {
                None
            }
        },
        _ => None,
    }
}

/// The groups of an object's members, read from first to last; a later
/// member replaces an earlier one of the same name.
pub open spec fn entries_of(ms: Members) -> Option<DocModel>
    decreases ms.len(),
{
    if ms.len() == 0 {
        Some(Seq::empty())
    } else {
        match (entries_of(ms.drop_last()), group_of(ms.last().1)) {
            (Some(d), Some(g)) => Some(doc_insert(d, ms.last().0, g)),
            _ => None,
        }
    }
}

/// The document that `v` describes, if it has the document's shape.
pub open spec fn document_of(v: JsonValue) -> Option<DocModel> {
    match v {
        JsonValue::Obj(ms) => entries_of(ms),
        _ => None,
    }
}

fn string_at(ms: &Vec<Member>, key: &str) -> (r: Option<String>)
    ensures
        match r {
            Some(s) => string_member(members_of(ms@), key@) == Some(s@),
            None => string_member(members_of(ms@), key@) is None,
        },
{
    match lookup_member(ms, key) {
        Some(Json::Str(s)) => Some(s.clone()),
        _ => None,
    }
}

fn strings_from_json(j: &Json) -> (r: Option<Vec<String>>)
    ensures
        match r {
            Some(v) => strings_of(j@) == Some(strings_view(v@)),
            None => strings_of(j@) is None,
        },
{
    match j {
        Json::Arr(items) => {
            proof {
                lemma_arr_view(*items);
            }
            let ghost vs = items_of(items@);
            let mut out: Vec<String> = Vec::new();
            for i in 0..items.len()
                invariant
                    vs == items_of(items@),
                    j@ == JsonValue::Arr(vs),
                    out@.len() == i,
                    forall|k: int| 0 <= k < i ==> vs[k] == JsonValue::Str(#[trigger] out@[k]@),
            {
                match &items[i] {
                    Json::Str(s) => out.push(s.clone()),
                    _ => {
                        assert(!(vs[i as int] is Str));
                        assert(strings_of(j@) is None);
                        return None;
                    },
                }
            }
            assert forall|k: int| 0 <= k < vs.len() implies #[trigger] vs[k] is Str by {
                assert(vs[k] == JsonValue::Str(out@[k]@));
            }
            assert(vs.map_values(|x: JsonValue| x->Str_0) =~= strings_view(out@));
            Some(out)
        },
        _ => None,
    }
}

/// The package that `j` describes, if it has a package's shape.
pub fn package_from_json(j: &Json) -> (r: Option<Package>)
    ensures
        match r {
            Some(p) => package_of(j@) == Some(p@),
            None => package_of(j@) is None,
        },
{
    let ms = match j {
        Json::Obj(ms) => ms,
        _ => return None,
    };
    proof {
        lemma_obj_view(*ms);
    }
    let owner = string_at(ms, "owner");
    let repo = string_at(ms, "repoName");
    let version = string_at(ms, "version");
    let file = string_at(ms, "fileName");
    match (owner, repo, version, file) {
        (Some(owner), Some(repoName), Some(version), Some(fileName)) => Some(
            Package { owner, repoName, version, fileName },
        ),
        _ => None,
    }
}

/// The project that `j` describes, if it has a project's shape. A missing or
/// `null` optional member is read as absent.
pub fn project_from_json(j: &Json) -> (r: Option<Project>)
    ensures
        match r {
            Some(p) => project_of(j@) == Some(p@),
            None => project_of(j@) is None,
        },
{
    let ms = match j {
        Json::Obj(ms) => ms,
        _ => return None,
    };
    proof {
        lemma_obj_view(*ms);
    }
    let ghost mv = members_of(ms@);
    let name = string_at(ms, "name");
    let version = string_at(ms, "version");
    let date = string_at(ms, "date");
    let changelog = string_at(ms, "changelog");
    let overview = string_at(ms, "overview");
    let description = string_at(ms, "description");
    let background = string_at(ms, "background");
    let (name, version, date, changelog, overview, description, background) = match (
        name,
        version,
        date,
        changelog,
        overview,
        description,
        background,
    ) {
        (Some(a), Some(b), Some(c), Some(d), Some(e), Some(f), Some(g)) => (a, b, c, d, e, f, g),
        _ => return None,
    };
    let page: Option<String> = match lookup_member(ms, "pageBackground") {
        None => None,
        Some(Json::Null) => None,
        Some(Json::Str(s)) => Some(s.clone()),
        Some(_) => return None,
    };
    let variants: Option<Vec<String>> = match lookup_member(ms, "variants") {
        None => None,
        Some(Json::Null) => None,
        Some(v) => match strings_from_json(v) {
            Some(s) => Some(s),
            None => return None,
        },
    };
    let package: Option<Package> = match lookup_member(ms, "package") {
        None => None,
        Some(Json::Null) => None,
        Some(v) => match package_from_json(v) {
            Some(p) => Some(p),
            None => return None,
        },
    };
    let p = Project {
        name,
        version,
        date,
        changelog,
        overview,
        description,
        background,
        pageBackground: page,
        variants,
        package,
    };
    Some(p)
}

fn string_in_object(v: Option<&Json>, key: &str) -> (r: Option<String>)
    ensures
        match r {
            Some(s) => nested_string(
                match v {
                    Some(x) => Some(x@),
                    None => None,
                },
                key@,
            ) == Some(s@),
            None => nested_string(
                match v {
                    Some(x) => Some(x@),
                    None => None,
                },
                key@,
            ) is None,
        },
{
    match v {
        Some(Json::Obj(ms)) => {
            proof {
                lemma_obj_view(*ms);
            }
            string_at(ms, key)
        },
        _ => None,
    }
}

/// The group that `j` describes, if it has a group's shape.
pub fn group_from_json(j: &Json) -> (r: Option<GroupData>)
    ensures
        match r {
            Some(g) => group_of(j@) == Some(g@),
            None => group_of(j@) is None,
        },
{
    let ms = match j {
        Json::Obj(ms) => ms,
        _ => return None,
    };
    proof {
        lemma_obj_view(*ms);
    }
    let name = match string_at(ms, "name") {
        Some(s) => s,
        None => return None,
    };
    let items = match lookup_member(ms, "projects") {
        Some(Json::Arr(items)) => items,
        _ => return None,
    };
    proof {
        lemma_arr_view(*items);
    }
    let ghost vs = items_of(items@);
    let mut projects: Vec<Project> = Vec::new();
    for i in 0..items.len()
        invariant
            vs == items_of(items@),
            j@ == JsonValue::Obj(members_of(ms@)),
            lookup(members_of(ms@), "projects"@) == Some(JsonValue::Arr(vs)),
            projects@.len() == i,
            forall|k: int| 0 <= k < i ==> project_of(vs[k]) == Some(#[trigger] projects@[k]@),
    {
        match project_from_json(&items[i]) {
            Some(p) => projects.push(p),
            None => {
                assert(project_of(vs[i as int]) is None);
                assert(projects_of(JsonValue::Arr(vs)) is None);
                return None;
            },
        }
    }
    assert forall|k: int| 0 <= k < vs.len() implies #[trigger] project_of(vs[k]) is Some by {
        assert(project_of(vs[k]) == Some(projects@[k]@));
    }
    assert(vs.map_values(|x: JsonValue| project_of(x)->Some_0) =~= projects@.map_values(
        |p: Project| p@,
    ));
    assert(projects_of(JsonValue::Arr(vs)) == Some(projects@.map_values(|p: Project| p@)));
    let beta = match string_in_object(lookup_member(ms, "beta"), "background") {
        Some(s) => s,
        None => return None,
    };
    let logo = match string_at(ms, "logo") {
        Some(s) => s,
        None => return None,
    };
    let update: Option<bool> = match lookup_member(ms, "update") {
        None => None,
        Some(Json::Null) => None,
        Some(Json::Bool(b)) => Some(*b),
        Some(_) => return None,
    };
    let path = match string_at(ms, "path") {
        Some(s) => s,
        None => return None,
    };
    let primary = match string_in_object(lookup_member(ms, "palette"), "primary") {
        Some(s) => s,
        None => return None,
    };
    let secondary = match string_in_object(lookup_member(ms, "palette"), "secondary") {
        Some(s) => s,
        None => return None,
    };
    Some(
        GroupData {
            name,
            projects,
            beta: BetaProject { background: beta },
            logo,
            update,
            path,
            palette: Palette { primary, secondary },
        },
    )
}

/// Once a prefix of the members fails to read, every longer prefix fails.
proof fn lemma_entries_fail(ms: Members, i: int, n: int)
    requires
        0 <= i <= n <= ms.len(),
        entries_of(ms.take(i)) is None,
    ensures
        entries_of(ms.take(n)) is None,
    decreases n - i,
{
    if i < n {
        assert(ms.take(i + 1).drop_last() =~= ms.take(i));
        lemma_entries_fail(ms, i + 1, n);
    }
}

/// Reads the document from its JSON form. Fails with `ParseError` exactly
/// when `j` does not have the document's shape.
pub fn document_from_json(j: &Json) -> (r: Result<Document, FetchError>)
    ensures
        match r {
            Ok(d) => d.wf() && document_of(j@) == Some(d@),
            Err(e) => document_of(j@) is None && e == FetchError::ParseError,
        },
{
    let ms = match j {
        Json::Obj(ms) => ms,
        _ => return Err(FetchError::ParseError),
    };
    proof {
        lemma_obj_view(*ms);
    }
    let ghost mv = members_of(ms@);
    let mut d = Document::new();
    assert(mv.take(0) =~= Seq::<(Seq<char>, JsonValue)>::empty());
    for i in 0..ms.len()
        invariant
            mv == members_of(ms@),
            j@ == JsonValue::Obj(mv),
            d.wf(),
            entries_of(mv.take(i as int)) == Some(d@),
    {
        assert(mv.take(i + 1).drop_last() =~= mv.take(i as int));
        match group_from_json(&ms[i].value) {
            Some(g) => {
                d.insert(ms[i].key.clone(), g);
            },
            None => {
                proof {
                    lemma_entries_fail(mv, i + 1, mv.len() as int);
                    assert(mv.take(mv.len() as int) =~= mv);
                }
                return Err(FetchError::ParseError);
            },
        }
    }
    assert(mv.take(mv.len() as int) =~= mv);
    Ok(d)
}

// ----- reading back what was written -----

/// Looking a name up in two runs of members finds it in the first run if it
/// is there, else in the second.
proof fn lemma_lookup_append(a: Members, b: Members, k: Seq<char>)
    ensures
        lookup(a + b, k) == match lookup(a, k) {
            Some(v) => Some(v),
            None => lookup(b, k),
        },
    decreases a.len(),
{
    if a.len() > 0 {
        assert((a + b).drop_first() =~= a.drop_first() + b);
        lemma_lookup_append(a.drop_first(), b, k);
    } else {
        assert(a + b =~= b);
    }
}

proof fn lemma_lookup_optional(k: Seq<char>, v: Option<JsonValue>, key: Seq<char>)
    ensures
        lookup(optional_member(k, v), key) == if k == key {
            v
        } else {
            None
        },
{
    reveal_with_fuel(lookup, 2);
}

/// The member names differ in length or in their first character.
proof fn lemma_member_names()
    ensures
        "owner"@.len() == 5 && "owner"@[0] == 'o',
        "repoName"@.len() == 8 && "repoName"@[0] == 'r',
        "version"@.len() == 7 && "version"@[0] == 'v',
        "fileName"@.len() == 8 && "fileName"@[0] == 'f',
        "name"@.len() == 4 && "name"@[0] == 'n',
        "date"@.len() == 4 && "date"@[0] == 'd',
        "changelog"@.len() == 9 && "changelog"@[0] == 'c',
        "overview"@.len() == 8 && "overview"@[0] == 'o',
        "description"@.len() == 11 && "description"@[0] == 'd',
        "background"@.len() == 10 && "background"@[0] == 'b',
        "pageBackground"@.len() == 14 && "pageBackground"@[0] == 'p',
        "variants"@.len() == 8 && "variants"@[0] == 'v',
        "package"@.len() == 7 && "package"@[0] == 'p',
        "projects"@.len() == 8 && "projects"@[0] == 'p',
        "beta"@.len() == 4 && "beta"@[0] == 'b',
        "logo"@.len() == 4 && "logo"@[0] == 'l',
        "update"@.len() == 6 && "update"@[0] == 'u',
        "path"@.len() == 4 && "path"@[0] == 'p',
        "palette"@.len() == 7 && "palette"@[0] == 'p',
        "primary"@.len() == 7 && "primary"@[0] == 'p',
        "secondary"@.len() == 9 && "secondary"@[0] == 's',
{
    reveal_strlit("owner");
    reveal_strlit("repoName");
    reveal_strlit("version");
    reveal_strlit("fileName");
    reveal_strlit("name");
    reveal_strlit("date");
    reveal_strlit("changelog");
    reveal_strlit("overview");
    reveal_strlit("description");
    reveal_strlit("background");
    reveal_strlit("pageBackground");
    reveal_strlit("variants");
    reveal_strlit("package");
    reveal_strlit("projects");
    reveal_strlit("beta");
    reveal_strlit("logo");
    reveal_strlit("update");
    reveal_strlit("path");
    reveal_strlit("palette");
    reveal_strlit("primary");
    reveal_strlit("secondary");
}

/// A package reads back as the package that was written.
pub proof fn lemma_package_round_trip(m: PackageModel)
    ensures
        package_of(package_value(m)) == Some(m),
{
    lemma_member_names();
    let ms = package_value(m)->Obj_0;
    lemma_lookup_at(ms, "owner"@, 0);
    lemma_lookup_at(ms, "repoName"@, 1);
    lemma_lookup_at(ms, "version"@, 2);
    lemma_lookup_at(ms, "fileName"@, 3);
}

/// A list of strings reads back as the list that was written.
pub proof fn lemma_strings_round_trip(v: Seq<Seq<char>>)
    ensures
        strings_of(strings_value(v)) == Some(v),
{
    let items = strings_value(v)->Arr_0;
    assert(items.map_values(|x: JsonValue| x->Str_0) =~= v);
}

/// The three optional members of a project's JSON form, in order.
pub open spec fn project_optionals(m: ProjectModel) -> (Members, Members, Members) {
    (
        optional_member(
            "pageBackground"@,
            match m.page_background {
                Some(s) => Some(JsonValue::Str(s)),
                None => None,
            },
        ),
        optional_member(
            "variants"@,
            match m.variants {
                Some(v) => Some(strings_value(v)),
                None => None,
            },
        ),
        optional_member(
            "package"@,
            match m.package {
                Some(p) => Some(package_value(p)),
                None => None,
            },
        ),
    )
}

/// Where a name is not among a project's seven required members, looking it
/// up finds the optional member of that name, if it was written.
proof fn lemma_project_optional_lookup(m: ProjectModel, k: Seq<char>)
    requires
        forall|j: int| 0 <= j < 7 ==> project_members(m)[j].0 != k,
    ensures
        lookup(project_members(m), k) == match lookup(project_optionals(m).0, k) {
            Some(v) => Some(v),
            None => match lookup(project_optionals(m).1, k) {
                Some(v) => Some(v),
                None => lookup(project_optionals(m).2, k),
            },
        },
{
    let fixed = project_members(m).take(7);
    let (o1, o2, o3) = project_optionals(m);
    assert(project_members(m) =~= fixed + o1 + o2 + o3);
    lemma_lookup_absent(fixed, k);
    lemma_lookup_append(fixed, o1, k);
    lemma_lookup_append(fixed + o1, o2, k);
    lemma_lookup_append(fixed + o1 + o2, o3, k);
}

/// A project reads back as the project that was written; in particular an
/// absent optional field stays absent and a present one keeps its value.
pub proof fn lemma_project_round_trip(m: ProjectModel)
    ensures
        project_of(project_value(m)) == Some(m),
        lookup(project_members(m), "pageBackground"@) == match m.page_background {
            Some(s) => Some(JsonValue::Str(s)),
            None => None,
        },
        lookup(project_members(m), "variants"@) == match m.variants {
            Some(v) => Some(strings_value(v)),
            None => None,
        },
        lookup(project_members(m), "package"@) == match m.package {
            Some(p) => Some(package_value(p)),
            None => None,
        },
{
    lemma_member_names();
    let ms = project_members(m);
    lemma_lookup_at(ms, "name"@, 0);
    lemma_lookup_at(ms, "version"@, 1);
    lemma_lookup_at(ms, "date"@, 2);
    lemma_lookup_at(ms, "changelog"@, 3);
    lemma_lookup_at(ms, "overview"@, 4);
    lemma_lookup_at(ms, "description"@, 5);
    lemma_lookup_at(ms, "background"@, 6);
    let (o1, o2, o3) = project_optionals(m);
    lemma_project_optional_lookup(m, "pageBackground"@);
    lemma_project_optional_lookup(m, "variants"@);
    lemma_project_optional_lookup(m, "package"@);
    lemma_lookup_optional("pageBackground"@, match m.page_background {
        Some(s) => Some(JsonValue::Str(s)),
        None => None,
    }, "pageBackground"@);
    lemma_lookup_optional("variants"@, match m.variants {
        Some(v) => Some(strings_value(v)),
        None => None,
    }, "pageBackground"@);
    lemma_lookup_optional("package"@, match m.package {
        Some(p) => Some(package_value(p)),
        None => None,
    }, "pageBackground"@);
    lemma_lookup_optional("pageBackground"@, match m.page_background {
        Some(s) => Some(JsonValue::Str(s)),
        None => None,
    }, "variants"@);
    lemma_lookup_optional("variants"@, match m.variants {
        Some(v) => Some(strings_value(v)),
        None => None,
    }, "variants"@);
    lemma_lookup_optional("package"@, match m.package {
        Some(p) => Some(package_value(p)),
        None => None,
    }, "variants"@);
    lemma_lookup_optional("pageBackground"@, match m.page_background {
        Some(s) => Some(JsonValue::Str(s)),
        None => None,
    }, "package"@);
    lemma_lookup_optional("variants"@, match m.variants {
        Some(v) => Some(strings_value(v)),
        None => None,
    }, "package"@);
    lemma_lookup_optional("package"@, match m.package {
        Some(p) => Some(package_value(p)),
        None => None,
    }, "package"@);
    if let Some(v) = m.variants {
        lemma_strings_round_trip(v);
    }
    if let Some(p) = m.package {
        lemma_package_round_trip(p);
    }
}

/// A list of projects reads back as the list that was written.
pub proof fn lemma_projects_round_trip(ps: Seq<ProjectModel>)
    ensures
        projects_of(JsonValue::Arr(ps.map_values(|p: ProjectModel| project_value(p)))) == Some(ps),
{
    let items = ps.map_values(|p: ProjectModel| project_value(p));
    assert forall|i: int| 0 <= i < items.len() implies #[trigger] project_of(items[i]) == Some(
        ps[i],
    ) by {
        lemma_project_round_trip(ps[i]);
    }
    assert(items.map_values(|x: JsonValue| project_of(x)->Some_0) =~= ps);
}

/// A group reads back as the group that was written.
pub proof fn lemma_group_round_trip(m: GroupModel)
    ensures
        group_of(group_value(m)) == Some(m),
        lookup(group_members(m), "update"@) == match m.update {
            Some(b) => Some(JsonValue::Bool(b)),
            None => None,
        },
{
    lemma_member_names();
    let ms = group_members(m);
    let update = match m.update {
        Some(b) => Some(JsonValue::Bool(b)),
        None => None,
    };
    let head = ms.take(4);
    let opt = optional_member("update"@, update);
    let tail = ms.skip(4 + opt.len() as int);
    assert(ms =~= head + opt + tail);
    lemma_lookup_at(ms, "name"@, 0);
    lemma_lookup_at(ms, "projects"@, 1);
    lemma_lookup_at(ms, "beta"@, 2);
    lemma_lookup_at(ms, "logo"@, 3);
    lemma_lookup_absent(head, "update"@);
    lemma_lookup_absent(head, "path"@);
    lemma_lookup_absent(head, "palette"@);
    lemma_lookup_optional("update"@, update, "update"@);
    lemma_lookup_optional("update"@, update, "path"@);
    lemma_lookup_optional("update"@, update, "palette"@);
    lemma_lookup_append(head, opt, "update"@);
    lemma_lookup_append(head, opt, "path"@);
    lemma_lookup_append(head, opt, "palette"@);
    lemma_lookup_append(head + opt, tail, "update"@);
    lemma_lookup_append(head + opt, tail, "path"@);
    lemma_lookup_append(head + opt, tail, "palette"@);
    lemma_lookup_absent(tail, "update"@);
    lemma_lookup_at(tail, "path"@, 0);
    lemma_lookup_at(tail, "palette"@, 1);
    let beta = seq![("background"@, JsonValue::Str(m.beta_background))];
    lemma_lookup_at(beta, "background"@, 0);
    let palette = seq![
        ("primary"@, JsonValue::Str(m.primary)),
        ("secondary"@, JsonValue::Str(m.secondary)),
    ];
    lemma_lookup_at(palette, "primary"@, 0);
    lemma_lookup_at(palette, "secondary"@, 1);
    lemma_projects_round_trip(m.projects);
    assert(lookup(ms, "update"@) == update);
}

proof fn lemma_entries_prefix(d: DocModel, n: int)
    requires
        keys_distinct(d),
        0 <= n <= d.len(),
    ensures
        entries_of(document_value(d)->Obj_0.take(n)) == Some(d.take(n)),
    decreases n,
{
    let ms = document_value(d)->Obj_0;
    if n == 0 {
        assert(d.take(0) =~= Seq::<(Seq<char>, GroupModel)>::empty());
    } else {
        lemma_entries_prefix(d, n - 1);
        assert(ms.take(n).drop_last() =~= ms.take(n - 1));
        lemma_group_round_trip(d[n - 1].1);
        let prev = d.take(n - 1);
        assert(!has_key(prev, d[n - 1].0));
        assert(prev.push((d[n - 1].0, d[n - 1].1)) =~= d.take(n));
    }
}

/// Writing a document and reading it back gives the same document: every
/// group, project and package field is kept, and an absent optional field
/// stays absent.
pub proof fn law_round_trip(d: DocModel)
    requires
        keys_distinct(d),
    ensures
        document_of(document_value(d)) == Some(d),
{
    lemma_entries_prefix(d, d.len() as int);
    assert(d.take(d.len() as int) =~= d);
    assert(document_value(d)->Obj_0.take(d.len() as int) =~= document_value(d)->Obj_0);
}

/// A project's optional fields are written three ways apart: an absent field
/// is no member at all (never `null`), a present field is a member holding its
/// value, the empty string and the empty list included. Either way the
/// project reads back as it was.
pub proof fn law_optional_members(m: ProjectModel)
    ensures
        m.page_background is None ==> lookup(project_members(m), "pageBackground"@) is None,
        m.page_background is Some ==> lookup(project_members(m), "pageBackground"@) == Some(
            JsonValue::Str(m.page_background->Some_0),
        ),
        m.variants is None ==> lookup(project_members(m), "variants"@) is None,
        m.variants is Some ==> lookup(project_members(m), "variants"@) == Some(
            strings_value(m.variants->Some_0),
        ),
        m.package is None ==> lookup(project_members(m), "package"@) is None,
        m.package is Some ==> lookup(project_members(m), "package"@) == Some(
            package_value(m.package->Some_0),
        ),
        project_of(project_value(m)) == Some(m),
{
    lemma_project_round_trip(m);
}

/// A group's update flag is left out when absent and written as a boolean
/// when present; the group reads back as it was.
pub proof fn law_optional_update(m: GroupModel)
    ensures
        m.update is None ==> lookup(group_members(m), "update"@) is None,
        m.update is Some ==> lookup(group_members(m), "update"@) == Some(
            JsonValue::Bool(m.update->Some_0),
        ),
        group_of(group_value(m)) == Some(m),
{
    lemma_group_round_trip(m);
}

/// Whether an HTTP status reports success.
pub open spec fn is_success(status: u16) -> bool {
    200 <= status <= 299
}

/// Decides what one GET of the document gave: `status` is the HTTP status
/// and `body` the body read as JSON, or none where it was not JSON. A status
/// outside 200 to 299 is an `HttpError`; a body that is not JSON or not of
/// the document's shape is a `ParseError`.
pub fn document_from_response(status: u16, body: Option<&Json>) -> (r: Result<Document, FetchError>)
    ensures
        !is_success(status) ==> r == Err::<Document, FetchError>(FetchError::HttpError(status)),
        is_success(status) && body is None ==> r == Err::<Document, FetchError>(
            FetchError::ParseError,
        ),
        is_success(status) && body is Some ==> match r {
            Ok(d) => d.wf() && document_of(body->Some_0@) == Some(d@),
            Err(e) => e == FetchError::ParseError && document_of(body->Some_0@) is None,
        },
{
    if status < 200 || status > 299 {
        return Err(FetchError::HttpError(status));
    }
    match body {
        Some(j) => document_from_json(j),
        None => Err(FetchError::ParseError),
    }
}

} // verus!
