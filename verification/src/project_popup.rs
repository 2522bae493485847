use vstd::prelude::*;
use crate::fields::StringField;
use crate::models::{NewProject, Project, ProjectFormData, ProjectId};
use crate::text::utf8_bytes;

verus! {

/// The input of the project dialog that has the focus.
#[derive(Debug, Clone, Copy, PartialEq, Eq, Structural)]
pub enum Focus {
    Name,
    Archived,
}

/// Whether the project dialog creates a project or edits the one with the
/// given identifier.
#[derive(Debug, Clone, Copy, PartialEq, Eq, Structural)]
pub enum ProjectPopupMode {
    Create,
    Edit(ProjectId),
}

/// The dialog in which a project is named or renamed.
#[derive(Debug)]
pub struct ProjectPopup {
    pub mode: ProjectPopupMode,
    pub id: Option<i64>,
    pub name: StringField,
    pub archived: bool,
    pub focus: Focus,
}

impl ProjectPopup {
    /// A dialog for a new project.
    pub fn new() -> (r: Self)
        ensures
            r.mode == ProjectPopupMode::Create,
            r.id is None,
            r.name.label@ == "Name"@,
            r.name.value@.len() == 0,
            r.name.cursor == 0,
            r.name.wf(),
            !r.archived,
            r.focus == Focus::Name,
    {
        proof { reveal_strlit("Name"); }
        Self {
            mode: ProjectPopupMode::Create,
            id: None,
            name: StringField::blank("Name"),
            archived: false,
            focus: Focus::Name,
        }
    }

    /// A dialog that edits `project`.
    pub fn from_project(project: &Project) -> (r: Self)
        ensures
            r.mode == ProjectPopupMode::Edit(project.id),
            r.id == Some(project.id),
            r.name.label@ == "Name"@,
            r.name.value == project.name,
            r.name.cursor == utf8_bytes(project.name@).len(),
            r.name.wf(),
            r.archived == project.archived,
            r.focus == Focus::Name,
    {
        proof { reveal_strlit("Name"); }
        Self {
            mode: ProjectPopupMode::Edit(project.id),
            id: Some(project.id),
            name: StringField::new("Name", project.name.clone()),
            archived: project.archived,
            focus: Focus::Name,
        }
    }

    /// The new project that the dialog describes.
    pub fn into_new_project(self) -> (r: NewProject)
        ensures
            r.name == self.name.value,
            r.archived == self.archived,
    {
        NewProject { name: self.name.stringfield_to_string(), archived: self.archived }
    }

    /// The edited fields that the dialog describes.
    pub fn into_form_data(&self) -> (r: ProjectFormData)
        ensures
            r.name@ == self.name.value@,
            r.archived == self.archived,
    {
        ProjectFormData { name: self.name.value.clone(), archived: self.archived }
    }
}

} // verus!
