//! Sections of projects.
use crate::api::rest::project::ProjectID;
use vstd::prelude::*;

verus! {

/// SectionID is the unique ID of a [`Section`].
pub type SectionID = String;

/// A section of a project, which tasks can be moved into.
#[derive(Debug, Clone, PartialEq, Eq)]
pub struct Section {
    /// Unique ID of the section.
    pub id: SectionID,
    /// The project the section belongs to.
    pub project_id: ProjectID,
    /// The name of the section.
    pub name: String,
}

impl Section {
    /// A section with the given ID, project and name.
    pub fn new(id: &str, project_id: &str, name: &str) -> (s: Section)
        ensures
            s.id@ == id@,
            s.project_id@ == project_id@,
            s.name@ == name@,
    {
        Section {
            id: String::from_str(id),
            project_id: String::from_str(project_id),
            name: String::from_str(name),
        }
    }
}

/// Command used to create a new [`Section`].
#[derive(Debug, Clone, PartialEq, Eq)]
pub struct CreateSection {
    /// Name of the section to create.
    pub name: String,
    /// The project to create the section in.
    pub project_id: ProjectID,
}

impl Default for CreateSection {
    fn default() -> (r: CreateSection)
        ensures
            r.name@ == Seq::<char>::empty(),
            r.project_id@ == Seq::<char>::empty(),
    {
        CreateSection { name: String::new(), project_id: String::new() }
    }
}

} // verus!
