use group_manager::codec::FetchError;
use group_manager::document::Document;
use group_manager::model::{GroupData, Package};
use group_manager::session::{EditSession, SelectionError};

fn session_with_groups(names: &[&str]) -> EditSession {
    let mut s = EditSession::new();
    for n in names {
        assert!(s.add_group(n.to_string()));
    }
    s
}

#[test]
fn new_session_is_empty_with_nothing_selected() {
    let s = EditSession::new();
    assert!(s.document().is_empty());
    assert_eq!(s.selected_group(), None);
    assert_eq!(s.selected_project(), None);
    assert!(s.current_group().is_none());
    assert!(s.current_project().is_none());
}

#[test]
fn switching_group_after_adding_project_clears_project_selection() {
    let mut s = session_with_groups(&["A", "B"]);
    s.select_group("A".to_string());
    assert_eq!(s.add_project("P".to_string()), Ok(()));
    assert_eq!(s.select_project(0), Ok(()));
    assert_eq!(s.selected_project(), Some(0));
    s.select_group("B".to_string());
    assert_eq!(s.selected_project(), None);
    assert_eq!(s.selected_group().map(|g| g.as_str()), Some("B"));
    assert!(s.current_project().is_none());
}

#[test]
fn reselecting_same_group_keeps_project_selection() {
    let mut s = session_with_groups(&["A"]);
    s.select_group("A".to_string());
    s.add_project("P".to_string()).unwrap();
    s.select_project(0).unwrap();
    s.select_group("A".to_string());
    assert_eq!(s.selected_project(), Some(0));
}

#[test]
fn out_of_range_project_selection_changes_nothing() {
    let mut s = session_with_groups(&["A"]);
    s.select_group("A".to_string());
    assert_eq!(s.select_project(0), Err(SelectionError::InvalidSelection));
    assert_eq!(s.selected_project(), None);
    s.add_project("P".to_string()).unwrap();
    s.select_project(0).unwrap();
    assert_eq!(s.select_project(1), Err(SelectionError::InvalidSelection));
    assert_eq!(s.select_project(usize::MAX), Err(SelectionError::InvalidSelection));
    assert_eq!(s.selected_project(), Some(0));
    assert_eq!(s.current_project().unwrap().name, "P");
}

#[test]
fn project_operations_need_an_existing_group() {
    let mut s = EditSession::new();
    assert_eq!(s.add_project("P".to_string()), Err(SelectionError::InvalidSelection));
    s.select_group("missing".to_string());
    assert_eq!(s.add_project("P".to_string()), Err(SelectionError::InvalidSelection));
    assert_eq!(s.select_project(0), Err(SelectionError::InvalidSelection));
    assert!(s.document().is_empty());
}

#[test]
fn add_group_replaces_group_of_same_name() {
    let mut s = session_with_groups(&["A"]);
    s.select_group("A".to_string());
    s.add_project("P".to_string()).unwrap();
    s.select_project(0).unwrap();
    assert!(s.set_logo("logo.png".to_string()));
    assert!(s.add_group("A".to_string()));
    assert_eq!(s.document().len(), 1);
    let g = s.document().get("A").unwrap();
    assert!(g.projects.is_empty());
    assert_eq!(g.logo, "");
    assert_eq!(s.selected_project(), None);
    assert_eq!(s.selected_group().map(|g| g.as_str()), Some("A"));
}

#[test]
fn add_group_with_empty_name_changes_nothing() {
    let mut s = session_with_groups(&["A"]);
    assert!(!s.add_group(String::new()));
    assert_eq!(s.document().len(), 1);
    assert!(s.document().get("").is_none());
}

#[test]
fn added_groups_and_projects_start_blank() {
    let mut s = session_with_groups(&["Acme"]);
    s.select_group("Acme".to_string());
    s.add_project("Launcher".to_string()).unwrap();
    s.add_project("Launcher".to_string()).unwrap();
    let g = s.current_group().unwrap();
    assert_eq!(g.name, "Acme");
    assert_eq!(g.projects.len(), 2);
    assert_eq!(g.update, None);
    assert_eq!(g.palette.primary, "");
    assert_eq!(g.beta.background, "");
    let p = &g.projects[1];
    assert_eq!(p.name, "Launcher");
    assert_eq!(p.version, "");
    assert!(p.pageBackground.is_none() && p.variants.is_none() && p.package.is_none());
}

#[test]
fn failed_load_leaves_session_unchanged() {
    let mut s = session_with_groups(&["A"]);
    s.select_group("A".to_string());
    s.add_project("P".to_string()).unwrap();
    s.select_project(0).unwrap();
    let before = format!("{:?}", s);
    for e in [FetchError::NetworkError, FetchError::HttpError(404), FetchError::ParseError] {
        assert_eq!(s.finish_load(Err(e)), Some(e));
        assert_eq!(format!("{:?}", s), before);
    }
}

#[test]
fn successful_load_replaces_document_and_clears_selection() {
    let mut s = session_with_groups(&["A"]);
    s.select_group("A".to_string());
    let mut d = Document::new();
    d.insert("B".to_string(), GroupData::new("B".to_string()));
    assert_eq!(s.finish_load(Ok(d)), None);
    assert_eq!(s.selected_group(), None);
    assert_eq!(s.document().len(), 1);
    assert!(s.document().get("A").is_none());
    assert!(s.document().get("B").is_some());
}

#[test]
fn project_setters_edit_the_selected_project() {
    let mut s = session_with_groups(&["A"]);
    assert!(!s.set_version("1.0".to_string()));
    s.select_group("A".to_string());
    s.add_project("P".to_string()).unwrap();
    s.add_project("Q".to_string()).unwrap();
    assert!(!s.set_version("1.0".to_string()));
    s.select_project(1).unwrap();
    assert!(s.set_version("2.1".to_string()));
    assert!(s.set_date("2024-01-01".to_string()));
    assert!(s.set_changelog("fixes".to_string()));
    assert!(s.set_overview("overview".to_string()));
    assert!(s.set_description("desc".to_string()));
    assert!(s.set_background("bg.webp".to_string()));
    assert!(s.set_page_background(Some(String::new())));
    assert!(s.set_variants(Some(vec!["a".to_string(), "b".to_string()])));
    assert!(s.set_project_name("Q2".to_string()));
    let g = s.current_group().unwrap();
    assert_eq!(g.projects[0].version, "");
    let q = &g.projects[1];
    assert_eq!(q.name, "Q2");
    assert_eq!(q.version, "2.1");
    assert_eq!(q.date, "2024-01-01");
    assert_eq!(q.changelog, "fixes");
    assert_eq!(q.overview, "overview");
    assert_eq!(q.description, "desc");
    assert_eq!(q.background, "bg.webp");
    assert_eq!(q.pageBackground.as_deref(), Some(""));
    assert_eq!(q.variants, Some(vec!["a".to_string(), "b".to_string()]));
}

#[test]
fn package_setters_need_a_package() {
    let mut s = session_with_groups(&["A"]);
    s.select_group("A".to_string());
    s.add_project("P".to_string()).unwrap();
    s.select_project(0).unwrap();
    assert!(!s.set_package_owner("me".to_string()));
    assert!(s.current_project().unwrap().package.is_none());
    let pkg = Package {
        owner: String::new(),
        repoName: String::new(),
        version: String::new(),
        fileName: String::new(),
    };
    assert!(s.set_package(Some(pkg)));
    assert!(s.set_package_owner("me".to_string()));
    assert!(s.set_package_repo_name("repo".to_string()));
    assert!(s.set_package_version("3".to_string()));
    assert!(s.set_package_file_name("a.zip".to_string()));
    let k = s.current_project().unwrap().package.as_ref().unwrap();
    assert_eq!(
        (k.owner.as_str(), k.repoName.as_str(), k.version.as_str(), k.fileName.as_str()),
        ("me", "repo", "3", "a.zip")
    );
    assert!(s.set_package(None));
    assert!(s.current_project().unwrap().package.is_none());
}

#[test]
fn group_setters_edit_the_selected_group() {
    let mut s = session_with_groups(&["A", "B"]);
    assert!(!s.set_logo("x".to_string()));
    s.select_group("B".to_string());
    s.add_project("P".to_string()).unwrap();
    assert!(s.set_logo("logo.webp".to_string()));
    assert!(s.set_path("/b".to_string()));
    assert!(s.set_beta_background("beta.png".to_string()));
    assert!(s.set_primary("#1a2b3c".to_string()));
    assert!(s.set_secondary("#ffffff".to_string()));
    assert!(s.set_update(Some(true)));
    assert!(s.set_group_name("Renamed".to_string()));
    let b = s.document().get("B").unwrap();
    assert_eq!(b.name, "Renamed");
    assert_eq!(b.logo, "logo.webp");
    assert_eq!(b.path, "/b");
    assert_eq!(b.beta.background, "beta.png");
    assert_eq!(b.palette.primary, "#1a2b3c");
    assert_eq!(b.palette.secondary, "#ffffff");
    assert_eq!(b.update, Some(true));
    assert_eq!(b.projects.len(), 1);
    let a = s.document().get("A").unwrap();
    assert_eq!(a.logo, "");
    assert_eq!(a.update, None);
}
