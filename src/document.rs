//! The document: groups kept under distinct names.
use vstd::prelude::*;
use crate::model::{GroupData, GroupModel};

verus! {

/// A mapping from group name to group. Each name occurs once; the entries
/// keep the order in which their names were first inserted.
#[derive(Debug, Clone)]
pub struct Document {
    entries: Vec<(String, GroupData)>,
}

pub type DocModel = Seq<(Seq<char>, GroupModel)>;

/// No name occurs twice among the entries.
pub open spec fn keys_distinct(d: DocModel) -> bool {
    forall|i: int, j: int| 0 <= i < d.len() && 0 <= j < d.len() && i != j ==> d[i].0 != d[j].0
}

pub open spec fn has_key(d: DocModel, k: Seq<char>) -> bool {
    exists|i: int| 0 <= i < d.len() && d[i].0 == k
}

/// The position of name `k`, where it occurs.
pub open spec fn key_index(d: DocModel, k: Seq<char>) -> int {
    choose|i: int| 0 <= i < d.len() && d[i].0 == k
}

/// The group stored under `k`, if any.
pub open spec fn doc_get(d: DocModel, k: Seq<char>) -> Option<GroupModel> {
    if has_key(d, k) {
        Some(d[key_index(d, k)].1)
    } else {
        None
    }
}

/// `d` with `g` stored under `k`: an existing entry of that name is replaced
/// in place, otherwise a new entry is appended.
pub open spec fn doc_insert(d: DocModel, k: Seq<char>, g: GroupModel) -> DocModel {
    if has_key(d, k) {
        d.update(key_index(d, k), (k, g))
    } else {
        d.push((k, g))
    }
}

pub proof fn lemma_key_index_unique(d: DocModel, k: Seq<char>, i: int)
    requires
        keys_distinct(d),
        0 <= i < d.len(),
        d[i].0 == k,
    ensures
        has_key(d, k),
        key_index(d, k) == i,
{
    assert(has_key(d, k));
}

/// Inserting keeps the names distinct.
pub proof fn lemma_insert_distinct(d: DocModel, k: Seq<char>, g: GroupModel)
    requires
        keys_distinct(d),
    ensures
        keys_distinct(doc_insert(d, k, g)),
        doc_get(doc_insert(d, k, g), k) == Some(g),
{
    let r = doc_insert(d, k, g);
    if has_key(d, k) {
        let i = key_index(d, k);
        lemma_key_index_unique(r, k, i);
    } else {
        lemma_key_index_unique(r, k, d.len() as int);
    }
}

impl View for Document {
    type V = DocModel;

    closed spec fn view(&self) -> DocModel {
        self.entries@.map_values(|e: (String, GroupData)| (e.0@, e.1@))
    }
}

impl Document {
    pub open spec fn wf(&self) -> bool {
        keys_distinct(self@)
    }

    /// A document with no groups.
    pub fn new() -> (d: Document)
        ensures
            d.wf(),
            d@ == Seq::<(Seq<char>, GroupModel)>::empty(),
    {
        let d = Document { entries: Vec::new() };
        assert(d@ =~= Seq::<(Seq<char>, GroupModel)>::empty());
        d
    }

    pub fn len(&self) -> (n: usize)
        ensures
            n == self@.len(),
    {
        self.entries.len()
    }

    pub fn is_empty(&self) -> (b: bool)
        ensures
            b <==> self@.len() == 0,
    {
        self.entries.len() == 0
    }

    /// The position of the group called `name`, if there is one.
    pub fn find(&self, name: &str) -> (r: Option<usize>)
        requires
            self.wf(),
        ensures
            r is Some <==> has_key(self@, name@),
            r is Some ==> r->Some_0 == key_index(self@, name@) && r->Some_0 < self@.len(),
    {
        let key = name.to_owned();
        let mut i: usize = 0;
        while i < self.entries.len()
            invariant
                i <= self.entries.len(),
                self.wf(),
                key@ == name@,
                forall|j: int| 0 <= j < i ==> self@[j].0 != name@,
            decreases self.entries.len() - i,
        {
            if self.entries[i].0 == key {
                proof {
                    lemma_key_index_unique(self@, name@, i as int);
                }
                return Some(i);
            }
            i = i + 1;
        }
        None
    }

    /// The group called `name`, if there is one.
    pub fn get(&self, name: &str) -> (r: Option<&GroupData>)
        requires
            self.wf(),
        ensures
            r is Some <==> has_key(self@, name@),
            r is Some ==> Some(r->Some_0@) == doc_get(self@, name@),
    {
        match self.find(name) {
            Some(i) => Some(&self.entries[i].1),
            None => None,
        }
    }

    /// The name and group of entry `i`.
    pub fn entry(&self, i: usize) -> (r: (&String, &GroupData))
        requires
            i < self@.len(),
        ensures
            (r.0@, r.1@) == self@[i as int],
    {
        (&self.entries[i].0, &self.entries[i].1)
    }

    /// The names of all groups, in entry order.
    pub fn names(&self) -> (r: Vec<String>)
        ensures
            r@.len() == self@.len(),
            forall|i: int| 0 <= i < r@.len() ==> #[trigger] r@[i]@ == self@[i].0,
    {
        let mut r: Vec<String> = Vec::new();
        for i in 0..self.entries.len()
            invariant
                r@.len() == i,
                forall|j: int| 0 <= j < i ==> #[trigger] r@[j]@ == self@[j].0,
        {
            r.push(self.entries[i].0.clone());
        }
        r
    }

    /// Stores `group` under `name`, replacing any group of that name.
    pub fn insert(&mut self, name: String, group: GroupData)
        requires
            old(self).wf(),
        ensures
            final(self).wf(),
            final(self)@ == doc_insert(old(self)@, name@, group@),
            doc_get(final(self)@, name@) == Some(group@),
    {
        proof {
            lemma_insert_distinct(self@, name@, group@);
        }
        match self.find(name.as_str()) {
            Some(i) => {
                self.entries.set(i, (name, group));
                assert(self@ =~= doc_insert(old(self)@, name@, group@));
            },
            None => {
                self.entries.push((name, group));
                assert(self@ =~= doc_insert(old(self)@, name@, group@));
            },
        }
    }

    /// Mutable access to the group of entry `i`; its name stays as it is.
    pub fn group_at_mut(&mut self, i: usize) -> (g: &mut GroupData)
        requires
            i < old(self)@.len(),
        ensures
            (*g)@ == old(self)@[i as int].1,
            final(self)@ == old(self)@.update(i as int, (old(self)@[i as int].0, final(g)@)),
    {
        &mut self.entries[i].1
    }
}

} // verus!
