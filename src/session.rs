//! The edit session: the loaded document, the current selection, and the
//! operations that the editor's form applies to them.
use vstd::prelude::*;
use crate::codec::FetchError;
use crate::document::{
    doc_get, doc_insert, has_key, key_index, lemma_insert_distinct, lemma_key_index_unique,
    DocModel, Document,
};
use crate::model::{
    blank_group, blank_project, strings_view, BetaProject, GroupData, GroupModel, Package,
    PackageModel, Palette, Project, ProjectModel,
};

verus! {

/// A selection that names nothing in the document.
#[derive(Debug, Clone, Copy, PartialEq, Eq, Structural)]
pub enum SelectionError {
    InvalidSelection,
}

/// The model of a session: the document, the selected group's name, and the
/// selected project's position within that group.
pub struct SessionModel {
    pub doc: DocModel,
    pub group: Option<Seq<char>>,
    pub project: Option<nat>,
}

/// The document, the selected group and the selected project.
#[derive(Debug, Clone)]
pub struct EditSession {
    doc: Document,
    group: Option<String>,
    project: Option<usize>,
}

/// The position of the selected group, where one is selected and exists.
pub open spec fn group_index(s: SessionModel) -> Option<int> {
    match s.group {
        Some(k) => if has_key(s.doc, k) {
            Some(key_index(s.doc, k))
        } else {
            None
        },
        None => None,
    }
}

/// The positions of the selected group and project, where both exist.
pub open spec fn project_index(s: SessionModel) -> Option<(int, int)> {
    match (group_index(s), s.project) {
        (Some(gi), Some(pi)) => if pi < s.doc[gi].1.projects.len() {
            Some((gi, pi as int))
        } else {
            None
        },
        _ => None,
    }
}

/// The selected project's model, where a project is selected.
pub open spec fn current_project_of(s: SessionModel) -> Option<ProjectModel> {
    match project_index(s) {
        Some((gi, pi)) => Some(s.doc[gi].1.projects[pi]),
        None => None,
    }
}

/// The selected group's model, where one is selected and exists.
pub open spec fn current_group_of(s: SessionModel) -> Option<GroupModel> {
    match group_index(s) {
        Some(gi) => Some(s.doc[gi].1),
        None => None,
    }
}

/// The session with the selected group replaced by `g`; unchanged where no
/// existing group is selected.
pub open spec fn group_edited(s: SessionModel, g: GroupModel) -> SessionModel {
    match group_index(s) {
        Some(gi) => SessionModel { doc: with_group(s.doc, gi, g), ..s },
        None => s,
    }
}

/// The session with the selected project replaced by `p`; unchanged where
/// no project is selected.
pub open spec fn project_edited(s: SessionModel, p: ProjectModel) -> SessionModel {
    match project_index(s) {
        Some((gi, pi)) => SessionModel { doc: with_project(s.doc, gi, pi, p), ..s },
        None => s,
    }
}

/// A well-formed session: names are distinct, and a selected project lies
/// within a selected group that exists.
pub open spec fn session_wf(s: SessionModel) -> bool {
    &&& crate::document::keys_distinct(s.doc)
    &&& (s.project is Some ==> project_index(s) is Some)
}

/// `d` with group `gi` replaced by `g`, its name unchanged.
pub open spec fn with_group(d: DocModel, gi: int, g: GroupModel) -> DocModel {
    d.update(gi, (d[gi].0, g))
}

/// `d` with project `pi` of group `gi` replaced by `p`.
pub open spec fn with_project(d: DocModel, gi: int, pi: int, p: ProjectModel) -> DocModel {
    with_group(d, gi, GroupModel { projects: d[gi].1.projects.update(pi, p), ..d[gi].1 })
}

/// A session on `d` with nothing selected.
pub open spec fn replaced(d: DocModel) -> SessionModel {
    SessionModel { doc: d, group: None, project: None }
}

/// Adding a group under `name`: it replaces any group of that name; an empty
/// name changes nothing. Replacing the selected group drops the project
/// selection, whose group is then empty.
pub open spec fn group_added(s: SessionModel, name: Seq<char>) -> SessionModel {
    if name.len() == 0 {
        s
    } else {
        SessionModel {
            doc: doc_insert(s.doc, name, blank_group(name)),
            group: s.group,
            project: if s.group == Some(name) {
                None
            } else {
                s.project
            },
        }
    }
}

/// Selecting group `name`: switching to another group drops the project
/// selection; selecting the same group again keeps it.
pub open spec fn group_selected(s: SessionModel, name: Seq<char>) -> SessionModel {
    SessionModel {
        doc: s.doc,
        group: Some(name),
        project: if s.group == Some(name) {
            s.project
        } else {
            None
        },
    }
}

/// Adding a project called `name` at the end of the selected group; nothing
/// changes where no existing group is selected.
pub open spec fn project_added(s: SessionModel, name: Seq<char>) -> SessionModel {
    match group_index(s) {
        Some(gi) => SessionModel {
            doc: with_group(
                s.doc,
                gi,
                GroupModel {
                    projects: s.doc[gi].1.projects.push(blank_project(name)),
                    ..s.doc[gi].1
                },
            ),
            ..s
        },
        None => s,
    }
}

/// Selecting project `i` of the selected group; nothing changes where `i`
/// is out of range or no existing group is selected.
pub open spec fn project_selected(s: SessionModel, i: nat) -> SessionModel {
    match group_index(s) {
        Some(gi) => if i < s.doc[gi].1.projects.len() {
            SessionModel { project: Some(i), ..s }
        } else {
            s
        },
        None => s,
    }
}

impl View for EditSession {
    type V = SessionModel;

    closed spec fn view(&self) -> SessionModel {
        SessionModel {
            doc: self.doc@,
            group: match self.group {
                Some(g) => Some(g@),
                None => None,
            },
            project: match self.project {
                Some(i) => Some(i as nat),
                None => None,
            },
        }
    }
}

impl EditSession {
    pub closed spec fn wf(&self) -> bool {
        &&& self.doc.wf()
        &&& session_wf(self@)
    }

    /// A session on an empty document with nothing selected.
    pub fn new() -> (s: EditSession)
        ensures
            s.wf(),
            s@ == replaced(Seq::empty()),
    {
        EditSession { doc: Document::new(), group: None, project: None }
    }

    /// The current document.
    pub fn document(&self) -> (d: &Document)
        requires
            self.wf(),
        ensures
            d.wf(),
            d@ == self@.doc,
    {
        &self.doc
    }

    /// The name of the selected group, if any.
    pub fn selected_group(&self) -> (r: Option<&String>)
        ensures
            match r {
                Some(g) => self@.group == Some(g@),
                None => self@.group is None,
            },
    {
        match &self.group {
            Some(g) => Some(g),
            None => None,
        }
    }

    /// The position of the selected project, if any.
    pub fn selected_project(&self) -> (r: Option<usize>)
        ensures
            match r {
                Some(i) => self@.project == Some(i as nat),
                None => self@.project is None,
            },
    {
        self.project
    }

    /// Replaces the whole document and clears the selection.
    pub fn replace_document(&mut self, doc: Document)
        requires
            doc.wf(),
        ensures
            final(self).wf(),
            final(self)@ == replaced(doc@),
    {
        self.doc = doc;
        self.group = None;
        self.project = None;
    }

    /// Takes the outcome of a load: a document replaces the current one and
    /// clears the selection; an error leaves the session exactly as it was
    /// and is handed back.
    pub fn finish_load(&mut self, outcome: Result<Document, FetchError>) -> (r: Option<FetchError>)
        requires
            old(self).wf(),
            outcome is Ok ==> outcome->Ok_0.wf(),
        ensures
            final(self).wf(),
            match outcome {
                Ok(d) => r is None && final(self)@ == replaced(d@),
                Err(e) => r == Some(e) && final(self)@ == old(self)@,
            },
    {
        match outcome {
            Ok(d) => {
                self.replace_document(d);
                None
            },
            Err(e) => Some(e),
        }
    }

    fn group_position(&self) -> (r: Option<usize>)
        requires
            self.wf(),
        ensures
            match r {
                Some(i) => group_index(self@) == Some(i as int) && i < self@.doc.len(),
                None => group_index(self@) is None,
            },
    {
        match &self.group {
            Some(g) => self.doc.find(g.as_str()),
            None => None,
        }
    }

    /// Adds an empty group called `name`, replacing any group of that name.
    /// An empty name changes nothing and gives `false`.
    pub fn add_group(&mut self, name: String) -> (added: bool)
        requires
            old(self).wf(),
        ensures
            final(self).wf(),
            final(self)@ == group_added(old(self)@, name@),
            added == (name@.len() > 0),
            added ==> doc_get(final(self)@.doc, name@) == Some(blank_group(name@)),
    {
        if name.as_str().is_empty() {
            return false;
        }
        proof {
            lemma_insert_distinct(self.doc@, name@, blank_group(name@));
        }
        let resets = match &self.group {
            Some(g) => *g == name,
            None => false,
        };
        let group = GroupData::new(name.clone());
        self.doc.insert(name, group);
        if resets {
            self.project = None;
        }
        proof {
            let s = self@;
            if s.project is Some {
                let k = s.group->Some_0;
                let o = old(self)@;
                assert(has_key(o.doc, k));
                let gi = key_index(o.doc, k);
                lemma_key_index_unique(s.doc, k, gi);
            }
        }
        true
    }

    /// Selects group `name`. Switching to another group clears the project
    /// selection.
    pub fn select_group(&mut self, name: String)
        requires
            old(self).wf(),
        ensures
            final(self).wf(),
            final(self)@ == group_selected(old(self)@, name@),
    {
        let same = match &self.group {
            Some(g) => *g == name,
            None => false,
        };
        if !same {
            self.project = None;
        }
        self.group = Some(name);
    }

    /// Appends a project called `name`, with every other field empty, to the
    /// selected group. Fails where no existing group is selected.
    pub fn add_project(&mut self, name: String) -> (r: Result<(), SelectionError>)
        requires
            old(self).wf(),
        ensures
            final(self).wf(),
            final(self)@ == project_added(old(self)@, name@),
            r is Ok <==> group_index(old(self)@) is Some,
            r is Ok ==> current_group_of(final(self)@) == Some(
                GroupModel {
                    projects: current_group_of(old(self)@)->Some_0.projects.push(
                        blank_project(name@),
                    ),
                    ..current_group_of(old(self)@)->Some_0
                },
            ),
            r is Err ==> r->Err_0 == SelectionError::InvalidSelection,
    {
        match self.group_position() {
            Some(gi) => {
                let ghost before = self.doc@[gi as int];
                let g = self.doc.group_at_mut(gi);
                g.projects.push(Project::new(name));
                proof {
                    let o = old(self)@;
                    let s = self@;
                    assert(s.doc[gi as int].1.projects =~= before.1.projects.push(
                        blank_project(name@),
                    ));
                    assert(s.doc =~= project_added(o, name@).doc);
                    lemma_key_index_unique(s.doc, s.group->Some_0, gi as int);
                }
                Ok(())
            },
            None => Err(SelectionError::InvalidSelection),
        }
    }

    /// Selects project `index` of the selected group. An index out of range,
    /// or no existing group selected, leaves the selection as it was.
    pub fn select_project(&mut self, index: usize) -> (r: Result<(), SelectionError>)
        requires
            old(self).wf(),
        ensures
            final(self).wf(),
            final(self)@ == project_selected(old(self)@, index as nat),
            r is Ok <==> final(self)@.project == Some(index as nat) && project_index(final(self)@)
                is Some,
            r is Err ==> r->Err_0 == SelectionError::InvalidSelection,
    {
        match self.group_position() {
            Some(gi) => {
                if index < self.doc.entry(gi).1.projects.len() {
                    self.project = Some(index);
                    Ok(())
                } else {
                    Err(SelectionError::InvalidSelection)
                }
            },
            None => Err(SelectionError::InvalidSelection),
        }
    }

    /// The selected group, where one is selected and exists.
    pub fn current_group(&self) -> (r: Option<&GroupData>)
        requires
            self.wf(),
        ensures
            match r {
                Some(g) => current_group_of(self@) == Some(g@),
                None => current_group_of(self@) is None,
            },
    {
        match self.group_position() {
            Some(gi) => Some(self.doc.entry(gi).1),
            None => None,
        }
    }

    /// The selected project, where one is selected; never a position out of
    /// range.
    pub fn current_project(&self) -> (r: Option<&Project>)
        requires
            self.wf(),
        ensures
            match r {
                Some(p) => current_project_of(self@) == Some(p@),
                None => current_project_of(self@) is None,
            },
    {
        match (self.group_position(), self.project) {
            (Some(gi), Some(pi)) => {
                let g = self.doc.entry(gi).1;
                if pi < g.projects.len() {
                    Some(&g.projects[pi])
                } else {
                    None
                }
            },
            _ => None,
        }
    }

    fn project_position(&self) -> (r: Option<(usize, usize)>)
        requires
            self.wf(),
        ensures
            match r {
                Some((gi, pi)) => project_index(self@) == Some((gi as int, pi as int)),
                None => project_index(self@) is None,
            },
    {
        match (self.group_position(), self.project) {
            (Some(gi), Some(pi)) => if pi < self.doc.entry(gi).1.projects.len() {
                Some((gi, pi))
            } else {
                None
            },
            _ => None,
        }
    }

    /// Takes out the selected project, at `gi` and `pi`, leaving a blank
    /// project in its place.
    fn take_project(&mut self, gi: usize, pi: usize) -> (r: Project)
        requires
            old(self).wf(),
            project_index(old(self)@) == Some((gi as int, pi as int)),
        ensures
            r@ == current_project_of(old(self)@)->Some_0,
            final(self).wf(),
            final(self)@ == project_edited(old(self)@, blank_project(Seq::empty())),
            project_index(final(self)@) == project_index(old(self)@),
    {
        let ghost o = self@;
        let mut p = Project::new(String::new());
        let g = self.doc.group_at_mut(gi);
        std::mem::swap(&mut g.projects[pi], &mut p);
        proof {
            let s = self@;
            assert(s.doc[gi as int].1.projects =~= o.doc[gi as int].1.projects.update(
                pi as int,
                blank_project(Seq::empty()),
            ));
            assert(s.doc =~= with_project(
                o.doc,
                gi as int,
                pi as int,
                blank_project(Seq::empty()),
            ));
            lemma_key_index_unique(s.doc, o.group->Some_0, gi as int);
        }
        p
    }

    /// Puts `p` back where `take_project` took the selected project of
    /// `before` from.
    fn put_project(&mut self, gi: usize, pi: usize, p: Project, before: Ghost<SessionModel>)
        requires
            old(self).wf(),
            session_wf(before@),
            project_index(before@) == Some((gi as int, pi as int)),
            old(self)@ == project_edited(before@, blank_project(Seq::empty())),
        ensures
            final(self).wf(),
            final(self)@ == project_edited(before@, p@),
    {
        proof {
            lemma_edit_twice(before@, blank_project(Seq::empty()), p@);
        }
        let ghost o = self@;
        let ghost incoming = p@;
        let mut p = p;
        let g = self.doc.group_at_mut(gi);
        std::mem::swap(&mut g.projects[pi], &mut p);
        proof {
            let s = self@;
            assert(s.doc[gi as int].1.projects =~= o.doc[gi as int].1.projects.update(
                pi as int,
                incoming,
            ));
            assert(s.doc =~= with_project(o.doc, gi as int, pi as int, incoming));
            lemma_key_index_unique(s.doc, o.group->Some_0, gi as int);
        }
    }

    /// Replaces the selected group's fields other than its projects, given
    /// as a group whose projects are ignored. Gives `false`, changing nothing,
    /// where no existing group is selected.
    fn put_group_fields(&mut self, fields: GroupData) -> (r: bool)
        requires
            old(self).wf(),
        ensures
            final(self).wf(),
            r == (group_index(old(self)@) is Some),
            final(self)@ == group_edited(
                old(self)@,
                GroupModel { projects: current_group_of(old(self)@)->Some_0.projects, ..fields@ },
            ),
    {
        match self.group_position() {
            Some(gi) => {
                let g = self.doc.group_at_mut(gi);
                g.name = fields.name;
                g.beta = fields.beta;
                g.logo = fields.logo;
                g.update = fields.update;
                g.path = fields.path;
                g.palette = fields.palette;
                proof {
                    let o = old(self)@;
                    assert(final(self)@.doc =~= with_group(
                        o.doc,
                        gi as int,
                        GroupModel { projects: o.doc[gi as int].1.projects, ..fields@ },
                    ));
                    lemma_key_index_unique(final(self)@.doc, o.group->Some_0, gi as int);
                }
                true
            },
            None => false,
        }
    }

    /// The selected group's fields other than its projects, in a group with
    /// no projects.
    fn group_fields(&self) -> (r: Option<GroupData>)
        requires
            self.wf(),
        ensures
            match r {
                Some(g) => current_group_of(self@) is Some && g@ == GroupModel {
                    projects: Seq::empty(),
                    ..current_group_of(self@)->Some_0
                },
                None => current_group_of(self@) is None,
            },
    {
        match self.group_position() {
            Some(gi) => {
                let g = self.doc.entry(gi).1;
                let r = GroupData {
                    name: g.name.clone(),
                    projects: Vec::new(),
                    beta: BetaProject { background: g.beta.background.clone() },
                    logo: g.logo.clone(),
                    update: g.update,
                    path: g.path.clone(),
                    palette: Palette {
                        primary: g.palette.primary.clone(),
                        secondary: g.palette.secondary.clone(),
                    },
                };
                assert(r@.projects =~= Seq::<ProjectModel>::empty());
                Some(r)
            },
            None => None,
        }
    }

    /// Sets the selected project's name.
    /// Gives `false`, changing nothing, where no project is selected.
    pub fn set_project_name(&mut self, value: String) -> (r: bool)
        requires
            old(self).wf(),
        ensures
            final(self).wf(),
            r == (current_project_of(old(self)@) is Some),
            final(self)@ == project_edited(
                old(self)@,
                ProjectModel { name: value@, ..current_project_of(old(self)@)->Some_0 },
            ),
    {
        let ghost before = self@;
        match self.project_position() {
            Some((gi, pi)) => {
                let mut p = self.take_project(gi, pi);
                p.name = value;
                self.put_project(gi, pi, p, Ghost(before));
                true
            },
            None => false,
        }
    }

    /// Sets the selected project's version.
    /// Gives `false`, changing nothing, where no project is selected.
    pub fn set_version(&mut self, value: String) -> (r: bool)
        requires
            old(self).wf(),
        ensures
            final(self).wf(),
            r == (current_project_of(old(self)@) is Some),
            final(self)@ == project_edited(
                old(self)@,
                ProjectModel { version: value@, ..current_project_of(old(self)@)->Some_0 },
            ),
    {
        let ghost before = self@;
        match self.project_position() {
            Some((gi, pi)) => {
                let mut p = self.take_project(gi, pi);
                p.version = value;
                self.put_project(gi, pi, p, Ghost(before));
                true
            },
            None => false,
        }
    }

    /// Sets the selected project's date.
    /// Gives `false`, changing nothing, where no project is selected.
    pub fn set_date(&mut self, value: String) -> (r: bool)
        requires
            old(self).wf(),
        ensures
            final(self).wf(),
            r == (current_project_of(old(self)@) is Some),
            final(self)@ == project_edited(
                old(self)@,
                ProjectModel { date: value@, ..current_project_of(old(self)@)->Some_0 },
            ),
    {
        let ghost before = self@;
        match self.project_position() {
            Some((gi, pi)) => {
                let mut p = self.take_project(gi, pi);
                p.date = value;
                self.put_project(gi, pi, p, Ghost(before));
                true
            },
            None => false,
        }
    }

    /// Sets the selected project's changelog.
    /// Gives `false`, changing nothing, where no project is selected.
    pub fn set_changelog(&mut self, value: String) -> (r: bool)
        requires
            old(self).wf(),
        ensures
            final(self).wf(),
            r == (current_project_of(old(self)@) is Some),
            final(self)@ == project_edited(
                old(self)@,
                ProjectModel { changelog: value@, ..current_project_of(old(self)@)->Some_0 },
            ),
    {
        let ghost before = self@;
        match self.project_position() {
            Some((gi, pi)) => {
                let mut p = self.take_project(gi, pi);
                p.changelog = value;
                self.put_project(gi, pi, p, Ghost(before));
                true
            },
            None => false,
        }
    }

    /// Sets the selected project's overview.
    /// Gives `false`, changing nothing, where no project is selected.
    pub fn set_overview(&mut self, value: String) -> (r: bool)
        requires
            old(self).wf(),
        ensures
            final(self).wf(),
            r == (current_project_of(old(self)@) is Some),
            final(self)@ == project_edited(
                old(self)@,
                ProjectModel { overview: value@, ..current_project_of(old(self)@)->Some_0 },
            ),
    {
        let ghost before = self@;
        match self.project_position() {
            Some((gi, pi)) => {
                let mut p = self.take_project(gi, pi);
                p.overview = value;
                self.put_project(gi, pi, p, Ghost(before));
                true
            },
            None => false,
        }
    }

    /// Sets the selected project's description.
    /// Gives `false`, changing nothing, where no project is selected.
    pub fn set_description(&mut self, value: String) -> (r: bool)
        requires
            old(self).wf(),
        ensures
            final(self).wf(),
            r == (current_project_of(old(self)@) is Some),
            final(self)@ == project_edited(
                old(self)@,
                ProjectModel { description: value@, ..current_project_of(old(self)@)->Some_0 },
            ),
    {
        let ghost before = self@;
        match self.project_position() {
            Some((gi, pi)) => {
                let mut p = self.take_project(gi, pi);
                p.description = value;
                self.put_project(gi, pi, p, Ghost(before));
                true
            },
            None => false,
        }
    }

    /// Sets the selected project's background.
    /// Gives `false`, changing nothing, where no project is selected.
    pub fn set_background(&mut self, value: String) -> (r: bool)
        requires
            old(self).wf(),
        ensures
            final(self).wf(),
            r == (current_project_of(old(self)@) is Some),
            final(self)@ == project_edited(
                old(self)@,
                ProjectModel { background: value@, ..current_project_of(old(self)@)->Some_0 },
            ),
    {
        let ghost before = self@;
        match self.project_position() {
            Some((gi, pi)) => {
                let mut p = self.take_project(gi, pi);
                p.background = value;
                self.put_project(gi, pi, p, Ghost(before));
                true
            },
            None => false,
        }
    }

    /// Sets or clears the selected project's page background.
    /// Gives `false`, changing nothing, where no project is selected.
    pub fn set_page_background(&mut self, value: Option<String>) -> (r: bool)
        requires
            old(self).wf(),
        ensures
            final(self).wf(),
            r == (current_project_of(old(self)@) is Some),
            final(self)@ == project_edited(
                old(self)@,
                ProjectModel { page_background: match value {
                    Some(v) => Some(v@),
                    None => None,
                }, ..current_project_of(old(self)@)->Some_0 },
            ),
    {
        let ghost before = self@;
        match self.project_position() {
            Some((gi, pi)) => {
                let mut p = self.take_project(gi, pi);
                p.pageBackground = value;
                self.put_project(gi, pi, p, Ghost(before));
                true
            },
            None => false,
        }
    }

    /// Sets or clears the selected project's variants.
    /// Gives `false`, changing nothing, where no project is selected.
    pub fn set_variants(&mut self, value: Option<Vec<String>>) -> (r: bool)
        requires
            old(self).wf(),
        ensures
            final(self).wf(),
            r == (current_project_of(old(self)@) is Some),
            final(self)@ == project_edited(
                old(self)@,
                ProjectModel { variants: match value {
                    Some(v) => Some(strings_view(v@)),
                    None => None,
                }, ..current_project_of(old(self)@)->Some_0 },
            ),
    {
        let ghost before = self@;
        match self.project_position() {
            Some((gi, pi)) => {
                let mut p = self.take_project(gi, pi);
                p.variants = value;
                self.put_project(gi, pi, p, Ghost(before));
                true
            },
            None => false,
        }
    }

    /// Sets or clears the selected project's package.
    /// Gives `false`, changing nothing, where no project is selected.
    pub fn set_package(&mut self, value: Option<Package>) -> (r: bool)
        requires
            old(self).wf(),
        ensures
            final(self).wf(),
            r == (current_project_of(old(self)@) is Some),
            final(self)@ == project_edited(
                old(self)@,
                ProjectModel { package: match value {
                    Some(v) => Some(v@),
                    None => None,
                }, ..current_project_of(old(self)@)->Some_0 },
            ),
    {
        let ghost before = self@;
        match self.project_position() {
            Some((gi, pi)) => {
                let mut p = self.take_project(gi, pi);
                p.package = value;
                self.put_project(gi, pi, p, Ghost(before));
                true
            },
            None => false,
        }
    }

    /// Sets the owner of the selected project's package.
    /// Gives `false`, changing nothing, where no project is selected or the
    /// selected project has no package.
    pub fn set_package_owner(&mut self, value: String) -> (r: bool)
        requires
            old(self).wf(),
        ensures
            final(self).wf(),
            r == (current_project_of(old(self)@) is Some && current_project_of(
                old(self)@,
            )->Some_0.package is Some),
            r ==> final(self)@ == project_edited(
                old(self)@,
                ProjectModel {
                    package: Some(
                        PackageModel {
                            owner: value@,
                            ..current_project_of(old(self)@)->Some_0.package->Some_0
                        },
                    ),
                    ..current_project_of(old(self)@)->Some_0
                },
            ),
            !r ==> final(self)@ == old(self)@,
    {
        let ghost before = self@;
        match self.project_position() {
            Some((gi, pi)) => {
                if self.doc.entry(gi).1.projects[pi].package.is_none() {
                    return false;
                }
                let mut p = self.take_project(gi, pi);
                if let Some(k) = &mut p.package {
                    k.owner = value;
                }
                self.put_project(gi, pi, p, Ghost(before));
                true
            },
            None => false,
        }
    }

    /// Sets the repository name of the selected project's package.
    /// Gives `false`, changing nothing, where no project is selected or the
    /// selected project has no package.
    pub fn set_package_repo_name(&mut self, value: String) -> (r: bool)
        requires
            old(self).wf(),
        ensures
            final(self).wf(),
            r == (current_project_of(old(self)@) is Some && current_project_of(
                old(self)@,
            )->Some_0.package is Some),
            r ==> final(self)@ == project_edited(
                old(self)@,
                ProjectModel {
                    package: Some(
                        PackageModel {
                            repo_name: value@,
                            ..current_project_of(old(self)@)->Some_0.package->Some_0
                        },
                    ),
                    ..current_project_of(old(self)@)->Some_0
                },
            ),
            !r ==> final(self)@ == old(self)@,
    {
        let ghost before = self@;
        match self.project_position() {
            Some((gi, pi)) => {
                if self.doc.entry(gi).1.projects[pi].package.is_none() {
                    return false;
                }
                let mut p = self.take_project(gi, pi);
                if let Some(k) = &mut p.package {
                    k.repoName = value;
                }
                self.put_project(gi, pi, p, Ghost(before));
                true
            },
            None => false,
        }
    }

    /// Sets the version of the selected project's package.
    /// Gives `false`, changing nothing, where no project is selected or the
    /// selected project has no package.
    pub fn set_package_version(&mut self, value: String) -> (r: bool)
        requires
            old(self).wf(),
        ensures
            final(self).wf(),
            r == (current_project_of(old(self)@) is Some && current_project_of(
                old(self)@,
            )->Some_0.package is Some),
            r ==> final(self)@ == project_edited(
                old(self)@,
                ProjectModel {
                    package: Some(
                        PackageModel {
                            version: value@,
                            ..current_project_of(old(self)@)->Some_0.package->Some_0
                        },
                    ),
                    ..current_project_of(old(self)@)->Some_0
                },
            ),
            !r ==> final(self)@ == old(self)@,
    {
        let ghost before = self@;
        match self.project_position() {
            Some((gi, pi)) => {
                if self.doc.entry(gi).1.projects[pi].package.is_none() {
                    return false;
                }
                let mut p = self.take_project(gi, pi);
                if let Some(k) = &mut p.package {
                    k.version = value;
                }
                self.put_project(gi, pi, p, Ghost(before));
                true
            },
            None => false,
        }
    }

    /// Sets the file name of the selected project's package.
    /// Gives `false`, changing nothing, where no project is selected or the
    /// selected project has no package.
    pub fn set_package_file_name(&mut self, value: String) -> (r: bool)
        requires
            old(self).wf(),
        ensures
            final(self).wf(),
            r == (current_project_of(old(self)@) is Some && current_project_of(
                old(self)@,
            )->Some_0.package is Some),
            r ==> final(self)@ == project_edited(
                old(self)@,
                ProjectModel {
                    package: Some(
                        PackageModel {
                            file_name: value@,
                            ..current_project_of(old(self)@)->Some_0.package->Some_0
                        },
                    ),
                    ..current_project_of(old(self)@)->Some_0
                },
            ),
            !r ==> final(self)@ == old(self)@,
    {
        let ghost before = self@;
        match self.project_position() {
            Some((gi, pi)) => {
                if self.doc.entry(gi).1.projects[pi].package.is_none() {
                    return false;
                }
                let mut p = self.take_project(gi, pi);
                if let Some(k) = &mut p.package {
                    k.fileName = value;
                }
                self.put_project(gi, pi, p, Ghost(before));
                true
            },
            None => false,
        }
    }

    /// Sets the selected group's name; the name it is stored under stays as it is.
    /// Gives `false`, changing nothing, where no existing group is selected.
    pub fn set_group_name(&mut self, value: String) -> (r: bool)
        requires
            old(self).wf(),
        ensures
            final(self).wf(),
            r == (current_group_of(old(self)@) is Some),
            final(self)@ == group_edited(
                old(self)@,
                GroupModel { name: value@, ..current_group_of(old(self)@)->Some_0 },
            ),
    {
        match self.group_fields() {
            Some(mut g) => {
                g.name = value;
                self.put_group_fields(g)
            },
            None => false,
        }
    }

    /// Sets the selected group's logo.
    /// Gives `false`, changing nothing, where no existing group is selected.
    pub fn set_logo(&mut self, value: String) -> (r: bool)
        requires
            old(self).wf(),
        ensures
            final(self).wf(),
            r == (current_group_of(old(self)@) is Some),
            final(self)@ == group_edited(
                old(self)@,
                GroupModel { logo: value@, ..current_group_of(old(self)@)->Some_0 },
            ),
    {
        match self.group_fields() {
            Some(mut g) => {
                g.logo = value;
                self.put_group_fields(g)
            },
            None => false,
        }
    }

    /// Sets the selected group's path.
    /// Gives `false`, changing nothing, where no existing group is selected.
    pub fn set_path(&mut self, value: String) -> (r: bool)
        requires
            old(self).wf(),
        ensures
            final(self).wf(),
            r == (current_group_of(old(self)@) is Some),
            final(self)@ == group_edited(
                old(self)@,
                GroupModel { path: value@, ..current_group_of(old(self)@)->Some_0 },
            ),
    {
        match self.group_fields() {
            Some(mut g) => {
                g.path = value;
                self.put_group_fields(g)
            },
            None => false,
        }
    }

    /// Sets the selected group's beta background.
    /// Gives `false`, changing nothing, where no existing group is selected.
    pub fn set_beta_background(&mut self, value: String) -> (r: bool)
        requires
            old(self).wf(),
        ensures
            final(self).wf(),
            r == (current_group_of(old(self)@) is Some),
            final(self)@ == group_edited(
                old(self)@,
                GroupModel { beta_background: value@, ..current_group_of(old(self)@)->Some_0 },
            ),
    {
        match self.group_fields() {
            Some(mut g) => {
                g.beta.background = value;
                self.put_group_fields(g)
            },
            None => false,
        }
    }

    /// Sets the selected group's primary colour.
    /// Gives `false`, changing nothing, where no existing group is selected.
    pub fn set_primary(&mut self, value: String) -> (r: bool)
        requires
            old(self).wf(),
        ensures
            final(self).wf(),
            r == (current_group_of(old(self)@) is Some),
            final(self)@ == group_edited(
                old(self)@,
                GroupModel { primary: value@, ..current_group_of(old(self)@)->Some_0 },
            ),
    {
        match self.group_fields() {
            Some(mut g) => {
                g.palette.primary = value;
                self.put_group_fields(g)
            },
            None => false,
        }
    }

    /// Sets the selected group's secondary colour.
    /// Gives `false`, changing nothing, where no existing group is selected.
    pub fn set_secondary(&mut self, value: String) -> (r: bool)
        requires
            old(self).wf(),
        ensures
            final(self).wf(),
            r == (current_group_of(old(self)@) is Some),
            final(self)@ == group_edited(
                old(self)@,
                GroupModel { secondary: value@, ..current_group_of(old(self)@)->Some_0 },
            ),
    {
        match self.group_fields() {
            Some(mut g) => {
                g.palette.secondary = value;
                self.put_group_fields(g)
            },
            None => false,
        }
    }

    /// Sets or clears the selected group's update flag.
    /// Gives `false`, changing nothing, where no existing group is selected.
    pub fn set_update(&mut self, value: Option<bool>) -> (r: bool)
        requires
            old(self).wf(),
        ensures
            final(self).wf(),
            r == (current_group_of(old(self)@) is Some),
            final(self)@ == group_edited(
                old(self)@,
                GroupModel { update: value, ..current_group_of(old(self)@)->Some_0 },
            ),
    {
        match self.group_fields() {
            Some(mut g) => {
                g.update = value;
                self.put_group_fields(g)
            },
            None => false,
        }
    }
}

proof fn lemma_edit_twice(s: SessionModel, a: ProjectModel, b: ProjectModel)
    requires
        session_wf(s),
        project_index(s) is Some,
    ensures
        project_index(project_edited(s, a)) == project_index(s),
        project_edited(project_edited(s, a), b) == project_edited(s, b),
{
    let (gi, pi) = project_index(s)->Some_0;
    let once = project_edited(s, a);
    lemma_key_index_unique(once.doc, s.group->Some_0, gi);
    let twice = project_edited(once, b);
    assert(twice.doc[gi].1.projects =~= s.doc[gi].1.projects.update(pi, b));
    assert(twice.doc =~= project_edited(s, b).doc);
}

/// Switching to another group after adding a project leaves no project
/// selected, whatever was selected before.
pub proof fn law_selection_reset(s: SessionModel, a: Seq<char>, project: Seq<char>, b: Seq<char>)
    requires
        a != b,
    ensures
        group_selected(project_added(group_selected(s, a), project), b).project is None,
        group_selected(project_added(group_selected(s, a), project), b).group == Some(b),
{
}

/// Selecting a project position at or past the end of the selected group
/// changes nothing, and what the field editors see stays as it was.
pub proof fn law_out_of_range_selection(s: SessionModel, i: nat)
    requires
        session_wf(s),
        group_index(s) is Some,
        i >= s.doc[group_index(s)->Some_0].1.projects.len(),
    ensures
        project_selected(s, i) == s,
        current_project_of(project_selected(s, i)) == current_project_of(s),
{
}

} // verus!