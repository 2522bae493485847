use vstd::prelude::*;
use crate::models::{Project, ProjectId};
use crate::selection::{SelectionState, spec_step_down, spec_step_up};
use crate::todo_table::initial_selection;

verus! {

/// A row of the project list: the entry for all todos, or one project.
#[derive(Debug)]
pub enum ProjectListItem {
    All,
    Project(Project),
}

/// The project list with the selected row.
#[derive(Debug)]
pub struct ProjectList {
    pub items: Vec<ProjectListItem>,
    pub state: SelectionState,
}

/// Why a project list refused a request.
#[derive(Debug, PartialEq, Eq, Structural)]
pub enum ProjectListError {
    ProjectNotFound,
}

/// The rows of a project list showing the given projects: the entry for
/// all todos first, then each project in order.
pub open spec fn project_rows(projects: Seq<Project>) -> Seq<ProjectListItem> {
    seq![ProjectListItem::All] + projects.map_values(|p: Project| ProjectListItem::Project(p))
}

/// The project that a row of the list stands for: none for the entry of
/// all todos and for a row outside the list.
pub open spec fn row_project_id(items: Seq<ProjectListItem>, i: int) -> Option<ProjectId> {
    if 0 <= i < items.len() {
        match items[i] {
            ProjectListItem::All => None,
            ProjectListItem::Project(p) => Some(p.id),
        }
    } else {
        None
    }
}

/// The project on row `i`, if the row is within the list and not the entry
/// of all todos.
pub open spec fn project_at(items: Seq<ProjectListItem>, i: int) -> Option<Project> {
    if 0 <= i < items.len() {
        match items[i] {
            ProjectListItem::All => None,
            ProjectListItem::Project(p) => Some(p),
        }
    } else {
        None
    }
}

/// The rows of a project list showing the given projects.
pub fn project_items(projects: Vec<Project>) -> (r: Vec<ProjectListItem>)
    ensures
        r@ == project_rows(projects@),
{
    let ghost all = projects@;
    let mut projects = projects;
    let mut items: Vec<ProjectListItem> = Vec::new();
    items.push(ProjectListItem::All);
    while projects.len() > 0
        invariant
            items@.len() - 1 + projects@.len() == all.len(),
            items@.len() >= 1,
            projects@ == all.skip(items@.len() - 1),
            items@ == project_rows(all.take(items@.len() - 1)),
        decreases projects@.len(),
    {
        let ghost k = items@.len() - 1;
        let project = projects.remove(0);
        items.push(ProjectListItem::Project(project));
        assert(all.take(k + 1) == all.take(k).push(all[k]));
        assert(project_rows(all.take(k + 1)) == project_rows(all.take(k)).push(
            ProjectListItem::Project(all[k]),
        ));
        assert(projects@ == all.skip(k + 1));
    }
    assert(all.take(all.len() as int) == all);
    items
}

impl ProjectList {
    /// A list of the given rows with the first one selected, if any.
    pub fn new(items: Vec<ProjectListItem>) -> (r: Self)
        ensures
            r.items == items,
            r.state.selected == initial_selection(items@.len()),
            r.state.offset == 0,
    {
        let mut state = SelectionState::default();
        if items.len() > 0 {
            state.select(Some(0));
        }
        Self { items, state }
    }

    /// Moves the selection one row down; an empty list has no selection.
    pub fn select_next(&mut self)
        ensures
            final(self).items == old(self).items,
            old(self).items@.len() == 0 ==> final(self).state.selected is None
                && final(self).state.offset == 0,
            old(self).items@.len() > 0 ==> final(self).state.selected == spec_step_down(
                old(self).state.selected,
            ) && final(self).state.offset == old(self).state.offset,
    {
        if self.items.len() == 0 {
            self.state.select(None)
        } else {
            self.state.select_next();
        }
    }

    /// Moves the selection one row up; an empty list has no selection.
    pub fn select_previous(&mut self)
        ensures
            final(self).items == old(self).items,
            old(self).items@.len() == 0 ==> final(self).state.selected is None
                && final(self).state.offset == 0,
            old(self).items@.len() > 0 ==> final(self).state.selected == spec_step_up(
                old(self).state.selected,
            ) && final(self).state.offset == old(self).state.offset,
    {
        if self.items.len() == 0 {
            self.state.select(None)
        } else {
            self.state.select_previous();
        }
    }

    /// Shows the given projects after the entry for all todos; the selection stays.
    pub fn replace_projects(&mut self, projects: Vec<Project>)
        ensures
            final(self).items@ == project_rows(projects@),
            final(self).state == old(self).state,
    {
        self.items = project_items(projects);
    }

    /// The project of the selected row (the first row when none is
    /// selected); none for the entry of all todos or outside the list.
    pub fn selected_project_id(&self) -> (r: Option<ProjectId>)
        ensures
            r == row_project_id(
                self.items@,
                (match self.state.selected {
                    Some(i) => i,
                    None => 0,
                }) as int,
            ),
    {
        let index = match self.state.selected() {
            Some(i) => i,
            None => 0,
        };
        if index < self.items.len() {
            match &self.items[index] {
                ProjectListItem::All => None,
                ProjectListItem::Project(project) => Some(project.id),
            }
        } else {
            None
        }
    }
}

} // verus!
