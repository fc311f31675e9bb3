//! Project metadata: the form fields a logging project carries. The
//! front-end state that picks a directory on screen stays with the
//! embedding; this type holds the plain values themselves.

use vstd::prelude::*;

verus! {

/// The metadata of one logging project.
pub struct Project {
    pub id: i32,
    pub project_name: String,
    pub project_dir: String,
    pub module_name: String,
    pub description: String,
    pub created_at: String,
    pub updated_at: String,
    pub repo_url: String,
    pub company: String,
}

/// Every text field of `p` is empty and its id is zero.
pub open spec fn spec_project_empty(p: Project) -> bool {
    &&& p.id == 0
    &&& p.project_name@ == Seq::<char>::empty()
    &&& p.project_dir@ == Seq::<char>::empty()
    &&& p.module_name@ == Seq::<char>::empty()
    &&& p.description@ == Seq::<char>::empty()
    &&& p.created_at@ == Seq::<char>::empty()
    &&& p.updated_at@ == Seq::<char>::empty()
    &&& p.repo_url@ == Seq::<char>::empty()
    &&& p.company@ == Seq::<char>::empty()
}

impl Project {
    /// A project with nothing filled in yet.
    pub fn new() -> (p: Project)
        ensures
            spec_project_empty(p),
    {
        Project {
            id: 0,
            project_name: String::new(),
            project_dir: String::new(),
            module_name: String::new(),
            description: String::new(),
            created_at: String::new(),
            updated_at: String::new(),
            repo_url: String::new(),
            company: String::new(),
        }
    }
}

} // verus!
