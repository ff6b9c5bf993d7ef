use group_manager::codec::{
    document_from_json, document_from_response, document_to_json, group_from_json,
    group_to_json, package_from_json, project_from_json, project_to_json, FetchError,
};
use group_manager::document::Document;
use group_manager::json::{Json, Member};
use group_manager::model::{BetaProject, GroupData, Package, Palette, Project};
use group_manager::session::EditSession;

fn text(s: &str) -> Json {
    Json::Str(s.to_string())
}

fn obj(members: Vec<(&str, Json)>) -> Json {
    Json::Obj(members.into_iter().map(|(k, v)| Member { key: k.to_string(), value: v }).collect())
}

fn keys(j: &Json) -> Vec<String> {
    match j {
        Json::Obj(ms) => ms.iter().map(|m| m.key.clone()).collect(),
        _ => panic!("not an object"),
    }
}

fn as_text(j: Option<&Json>) -> Option<&str> {
    match j {
        Some(Json::Str(s)) => Some(s.as_str()),
        _ => None,
    }
}

fn full_project() -> Project {
    Project {
        name: "Launcher".to_string(),
        version: "1.2.3".to_string(),
        date: "2024-02-03".to_string(),
        changelog: "- fixed \"quotes\"\n- more".to_string(),
        overview: "ov".to_string(),
        description: "déjà vu".to_string(),
        background: "bg.webp".to_string(),
        pageBackground: Some("page.png".to_string()),
        variants: Some(vec!["x".to_string(), String::new()]),
        package: Some(Package {
            owner: "own".to_string(),
            repoName: "repo".to_string(),
            version: "v1".to_string(),
            fileName: "f.zip".to_string(),
        }),
    }
}

fn sample_group(name: &str) -> GroupData {
    let mut bare = Project::new("Bare".to_string());
    bare.variants = Some(Vec::new());
    GroupData {
        name: name.to_string(),
        projects: vec![full_project(), bare, Project::new(String::new())],
        beta: BetaProject { background: "beta.png".to_string() },
        logo: "logo.webp".to_string(),
        update: Some(false),
        path: "/acme".to_string(),
        palette: Palette { primary: "#1a2b3c".to_string(), secondary: "#FFFFFF".to_string() },
    }
}

fn acme_json() -> Json {
    obj(vec![(
        "Acme",
        obj(vec![
            ("name", text("Acme")),
            ("projects", Json::Arr(Vec::new())),
            ("beta", obj(vec![("background", text(""))])),
            ("logo", text("")),
            ("path", text("")),
            ("palette", obj(vec![("primary", text("")), ("secondary", text(""))])),
        ]),
    )])
}

#[test]
fn document_round_trips_through_json() {
    let mut d = Document::new();
    d.insert("Acme".to_string(), sample_group("Acme"));
    d.insert("Empty".to_string(), GroupData::new("Empty".to_string()));
    d.insert("Other".to_string(), sample_group("Differs"));
    let j = document_to_json(&d);
    assert_eq!(keys(&j), vec!["Acme", "Empty", "Other"]);
    let back = document_from_json(&j).unwrap();
    assert_eq!(format!("{:?}", back), format!("{:?}", d));
}

#[test]
fn members_follow_declaration_order() {
    let j = project_to_json(&full_project());
    assert_eq!(
        keys(&j),
        vec![
            "name", "version", "date", "changelog", "overview", "description", "background",
            "pageBackground", "variants", "package",
        ]
    );
    let g = group_to_json(&sample_group("Acme"));
    assert_eq!(keys(&g), vec!["name", "projects", "beta", "logo", "update", "path", "palette"]);
    let g = group_to_json(&GroupData::new("Acme".to_string()));
    assert_eq!(keys(&g), vec!["name", "projects", "beta", "logo", "path", "palette"]);
}

#[test]
fn absent_page_background_is_left_out() {
    let p = Project::new("P".to_string());
    let j = project_to_json(&p);
    assert!(j.get("pageBackground").is_none());
    assert!(j.get("variants").is_none());
    assert!(j.get("package").is_none());
    let back = project_from_json(&j).unwrap();
    assert!(back.pageBackground.is_none());
    assert_eq!(format!("{:?}", back), format!("{:?}", p));
}

#[test]
fn empty_page_background_is_written() {
    let mut p = Project::new("P".to_string());
    p.pageBackground = Some(String::new());
    let j = project_to_json(&p);
    assert_eq!(as_text(j.get("pageBackground")), Some(""));
    let back = project_from_json(&j).unwrap();
    assert_eq!(back.pageBackground.as_deref(), Some(""));
    assert_eq!(format!("{:?}", back), format!("{:?}", p));
}

#[test]
fn null_optional_members_read_as_absent() {
    let mut j = project_to_json(&Project::new("P".to_string()));
    if let Json::Obj(ms) = &mut j {
        for k in ["pageBackground", "variants", "package"] {
            ms.push(Member { key: k.to_string(), value: Json::Null });
        }
    }
    let p = project_from_json(&j).unwrap();
    assert!(p.pageBackground.is_none() && p.variants.is_none() && p.package.is_none());
}

#[test]
fn unknown_members_are_ignored() {
    let mut j = project_to_json(&full_project());
    if let Json::Obj(ms) = &mut j {
        ms.push(Member { key: "extra".to_string(), value: Json::Num("12".to_string()) });
    }
    let p = project_from_json(&j).unwrap();
    assert_eq!(format!("{:?}", p), format!("{:?}", full_project()));
}

#[test]
fn missing_or_mistyped_fields_are_parse_errors() {
    let mut j = project_to_json(&full_project());
    if let Json::Obj(ms) = &mut j {
        ms.remove(1);
    }
    assert!(project_from_json(&j).is_none());
    let j = obj(vec![("owner", text("a")), ("repoName", text("b")), ("version", text("c"))]);
    assert!(package_from_json(&j).is_none());
    let j = obj(vec![
        ("owner", text("a")),
        ("repoName", text("b")),
        ("version", Json::Num("1".to_string())),
        ("fileName", text("d")),
    ]);
    assert!(package_from_json(&j).is_none());
    let mut g = group_to_json(&GroupData::new("G".to_string()));
    if let Json::Obj(ms) = &mut g {
        ms.push(Member { key: "update".to_string(), value: text("yes") });
    }
    assert!(group_from_json(&g).is_none());
    let bad = obj(vec![("G", g)]);
    assert_eq!(document_from_json(&bad).unwrap_err(), FetchError::ParseError);
    assert_eq!(document_from_json(&Json::Arr(Vec::new())).unwrap_err(), FetchError::ParseError);
    assert_eq!(document_from_json(&text("x")).unwrap_err(), FetchError::ParseError);
}

#[test]
fn variants_must_be_strings() {
    let mut j = project_to_json(&Project::new("P".to_string()));
    if let Json::Obj(ms) = &mut j {
        ms.push(Member {
            key: "variants".to_string(),
            value: Json::Arr(vec![text("a"), Json::Bool(true)]),
        });
    }
    assert!(project_from_json(&j).is_none());
}

#[test]
fn later_member_of_same_name_replaces_group() {
    let first = group_to_json(&GroupData::new("First".to_string()));
    let second = group_to_json(&sample_group("Second"));
    let j = obj(vec![("G", first), ("H", group_to_json(&GroupData::new("H".to_string()))), ("G", second)]);
    let d = document_from_json(&j).unwrap();
    assert_eq!(d.len(), 2);
    assert_eq!(d.get("G").unwrap().name, "Second");
    assert_eq!(d.entry(0).0, "G");
}

#[test]
fn response_status_and_body_decide_the_outcome() {
    let body = acme_json();
    assert_eq!(document_from_response(404, Some(&body)).unwrap_err(), FetchError::HttpError(404));
    assert_eq!(document_from_response(199, Some(&body)).unwrap_err(), FetchError::HttpError(199));
    assert_eq!(document_from_response(300, Some(&body)).unwrap_err(), FetchError::HttpError(300));
    assert_eq!(document_from_response(200, None).unwrap_err(), FetchError::ParseError);
    assert_eq!(document_from_response(200, Some(&Json::Null)).unwrap_err(), FetchError::ParseError);
    assert_eq!(document_from_response(299, Some(&body)).unwrap().len(), 1);
}

#[test]
fn loaded_acme_gets_a_launcher_project() {
    let d = document_from_response(200, Some(&acme_json())).unwrap();
    assert_eq!(d.len(), 1);
    assert!(d.get("Acme").unwrap().projects.is_empty());
    let mut s = EditSession::new();
    assert_eq!(s.finish_load(Ok(d)), None);
    s.select_group("Acme".to_string());
    s.add_project("Launcher".to_string()).unwrap();
    let saved = document_to_json(s.document());
    let projects = match saved.get("Acme").and_then(|g| g.get("projects")) {
        Some(Json::Arr(items)) => items,
        _ => panic!("no projects array"),
    };
    assert_eq!(projects.len(), 1);
    let p = &projects[0];
    assert_eq!(
        keys(p),
        vec!["name", "version", "date", "changelog", "overview", "description", "background"]
    );
    assert_eq!(as_text(p.get("name")), Some("Launcher"));
    for k in ["version", "date", "changelog", "overview", "description", "background"] {
        assert_eq!(as_text(p.get(k)), Some(""));
    }
}
