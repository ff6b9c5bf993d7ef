//! The document's records and their mathematical models.
use vstd::prelude::*;

verus! {

/// Where a project's downloadable artifact lives.
#[allow(non_snake_case)]
#[derive(Debug, Clone)]
pub struct Package {
    pub owner: String,
    pub repoName: String,
    pub version: String,
    pub fileName: String,
}

/// Metadata of one software release.
#[allow(non_snake_case)]
#[derive(Debug, Clone)]
pub struct Project {
    pub name: String,
    pub version: String,
    pub date: String,
    pub changelog: String,
    pub overview: String,
    pub description: String,
    pub background: String,
    pub pageBackground: Option<String>,
    pub variants: Option<Vec<String>>,
    pub package: Option<Package>,
}

/// The two theme colours of a group, each written `#RRGGBB`.
#[derive(Debug, Clone)]
pub struct Palette {
    pub primary: String,
    pub secondary: String,
}

/// What a group shows for its beta channel.
#[derive(Debug, Clone)]
pub struct BetaProject {
    pub background: String,
}

/// A named collection of projects with shared presentation metadata.
#[derive(Debug, Clone)]
pub struct GroupData {
    pub name: String,
    pub projects: Vec<Project>,
    pub beta: BetaProject,
    pub logo: String,
    pub update: Option<bool>,
    pub path: String,
    pub palette: Palette,
}

pub struct PackageModel {
    pub owner: Seq<char>,
    pub repo_name: Seq<char>,
    pub version: Seq<char>,
    pub file_name: Seq<char>,
}

pub struct ProjectModel {
    pub name: Seq<char>,
    pub version: Seq<char>,
    pub date: Seq<char>,
    pub changelog: Seq<char>,
    pub overview: Seq<char>,
    pub description: Seq<char>,
    pub background: Seq<char>,
    pub page_background: Option<Seq<char>>,
    pub variants: Option<Seq<Seq<char>>>,
    pub package: Option<PackageModel>,
}

pub struct GroupModel {
    pub name: Seq<char>,
    pub projects: Seq<ProjectModel>,
    pub beta_background: Seq<char>,
    pub logo: Seq<char>,
    pub update: Option<bool>,
    pub path: Seq<char>,
    pub primary: Seq<char>,
    pub secondary: Seq<char>,
}

/// The view of each string in `v`.
pub open spec fn strings_view(v: Seq<String>) -> Seq<Seq<char>> {
    v.map_values(|s: String| s@)
}

impl View for Package {
    type V = PackageModel;

    open spec fn view(&self) -> PackageModel {
        PackageModel {
            owner: self.owner@,
            repo_name: self.repoName@,
            version: self.version@,
            file_name: self.fileName@,
        }
    }
}

impl View for Project {
    type V = ProjectModel;

    open spec fn view(&self) -> ProjectModel {
        ProjectModel {
            name: self.name@,
            version: self.version@,
            date: self.date@,
            changelog: self.changelog@,
            overview: self.overview@,
            description: self.description@,
            background: self.background@,
            page_background: match self.pageBackground {
                Some(s) => Some(s@),
                None => None,
            },
            variants: match self.variants {
                Some(v) => Some(strings_view(v@)),
                None => None,
            },
            package: match self.package {
                Some(p) => Some(p@),
                None => None,
            },
        }
    }
}

impl View for GroupData {
    type V = GroupModel;

    open spec fn view(&self) -> GroupModel {
        GroupModel {
            name: self.name@,
            projects: self.projects@.map_values(|p: Project| p@),
            beta_background: self.beta.background@,
            logo: self.logo@,
            update: self.update,
            path: self.path@,
            primary: self.palette.primary@,
            secondary: self.palette.secondary@,
        }
    }
}

/// A project called `name` whose other fields are empty or absent.
pub open spec fn blank_project(name: Seq<char>) -> ProjectModel {
    ProjectModel {
        name,
        version: Seq::empty(),
        date: Seq::empty(),
        changelog: Seq::empty(),
        overview: Seq::empty(),
        description: Seq::empty(),
        background: Seq::empty(),
        page_background: None,
        variants: None,
        package: None,
    }
}

/// A group called `name` with no projects and every other field empty or absent.
pub open spec fn blank_group(name: Seq<char>) -> GroupModel {
    GroupModel {
        name,
        projects: Seq::empty(),
        beta_background: Seq::empty(),
        logo: Seq::empty(),
        update: None,
        path: Seq::empty(),
        primary: Seq::empty(),
        secondary: Seq::empty(),
    }
}

impl Project {
    /// A project with the given name; every other string is empty and every
    /// optional field absent.
    pub fn new(name: String) -> (p: Project)
        ensures
            p@ == blank_project(name@),
    {
        Project {
            name,
            version: String::new(),
            date: String::new(),
            changelog: String::new(),
            overview: String::new(),
            description: String::new(),
            background: String::new(),
            pageBackground: None,
            variants: None,
            package: None,
        }
    }
}

impl GroupData {
    /// A group with the given name, no projects, empty strings and no update flag.
    pub fn new(name: String) -> (g: GroupData)
        ensures
            g@ == blank_group(name@),
    {
        let g = GroupData {
            name,
            projects: Vec::new(),
            beta: BetaProject { background: String::new() },
            logo: String::new(),
            update: None,
            path: String::new(),
            palette: Palette { primary: String::new(), secondary: String::new() },
        };
        assert(g@.projects =~= Seq::<ProjectModel>::empty());
        g
    }
}

} // verus!
