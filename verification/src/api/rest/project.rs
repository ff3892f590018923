//! Projects as the Todoist API v1 describes them, and the order the client lists
//! them in.
use crate::order::{
    bytes_order, compare_str, int_order, lemma_bytes_order_reverse, lemma_bytes_order_transitive,
    lemma_text_order_equal, std_ordering, Order,
};
use crate::paint::{paint_when, painted, Paint};
use std::cmp::Ordering;
use vstd::prelude::*;
use vstd::utf8::encode_utf8;

verus! {

/// ProjectID is the unique ID of a [`Project`].
pub type ProjectID = String;

/// ProjectSyncID is an identifier to mark between copies of shared projects.
pub type ProjectSyncID = String;

/// Project as described by the Todoist API v1.
///
/// Taken from the [Developer Documentation](https://developer.todoist.com/api/v1/#projects).
#[derive(Debug, Eq, PartialEq, Clone)]
pub struct Project {
    /// ID of the Project.
    pub id: ProjectID,
    /// The direct parent of the project if it exists.
    pub parent_id: Option<ProjectID>,
    /// The name of the Project. Displayed in the project list in the UI.
    pub name: String,
    /// Color as used by the Todoist UI.
    pub color: String,
    /// Whether the project is shared with someone else.
    pub is_shared: bool,
    /// Project order under the same parent.
    pub child_order: isize,
    /// This marks the project as the initial Inbox project if it exists.
    pub inbox_project: bool,
    /// Toggle to mark this project as a favorite.
    pub is_favorite: bool,
    /// View style to show in todoist clients.
    pub view_style: ViewStyle,
    /// Whether tasks can be assigned in this project.
    pub can_assign_tasks: bool,
    /// The user who created this project.
    pub creator_uid: Option<String>,
    /// When the project was created.
    pub created_at: Option<String>,
    /// Whether the project is archived.
    pub is_archived: bool,
    /// Whether the project is deleted.
    pub is_deleted: bool,
    /// Whether the project is frozen.
    pub is_frozen: bool,
    /// Default ordering.
    pub default_order: isize,
    /// Project description.
    pub description: String,
    /// Whether the project has public access.
    pub public_access: bool,
    /// Public key for the project.
    pub public_key: Option<String>,
    /// Access configuration (opaque for now).
    pub access: Option<serde_json::Value>,
    /// User's role in this project.
    pub role: Option<String>,
    /// Whether the project is collapsed in the UI.
    pub is_collapsed: bool,
    /// When the project was last updated.
    pub updated_at: Option<String>,
}

/// ViewStyle for viewing of the project in different clients.
///
/// Taken from the [Developer Documentation](https://developer.todoist.com/api/v1/#projects).
#[derive(Debug, Eq, PartialEq, Ord, PartialOrd, Clone, Copy, Structural)]
pub enum ViewStyle {
    /// Project as list view (default).
    List,
    /// Project as board view.
    Board,
    /// Project as calendar view.
    Calendar,
}

impl Default for ViewStyle {
    fn default() -> (r: ViewStyle)
        ensures
            r == ViewStyle::List,
    {
        ViewStyle::List
    }
}

/// The order projects are listed in: by their order under the same parent, ties
/// broken by the bytes of their IDs.
pub open spec fn project_order(a: &Project, b: &Project) -> Order {
    int_order(a.child_order as int, b.child_order as int).tie_break(
        bytes_order(encode_utf8(a.id@), encode_utf8(b.id@)),
    )
}

impl Project {
    /// Compares two projects by [`project_order`]: `child_order` first, then `id`.
    pub fn cmp(&self, other: &Self) -> (r: Ordering)
        ensures
            r == std_ordering(project_order(self, other)),
            self.child_order < other.child_order ==> r == Ordering::Less,
            self.child_order > other.child_order ==> r == Ordering::Greater,
            self.child_order == other.child_order ==> (r == Ordering::Equal <==> self.id@ == other.id@),
            self.child_order == other.child_order ==> r == std_ordering(
                bytes_order(encode_utf8(self.id@), encode_utf8(other.id@)),
            ),
    {
        proof {
            project_order_by_child_order_first(self, other);
        }
        if self.child_order < other.child_order {
            Ordering::Less
        } else if self.child_order > other.child_order {
            Ordering::Greater
        } else {
            compare_str(self.id.as_str(), other.id.as_str()).to_std()
        }
    }

    /// Projects are totally ordered, so this always compares them.
    pub fn partial_cmp(&self, other: &Self) -> (r: Option<Ordering>)
        ensures
            r == Some(std_ordering(project_order(self, other))),
    {
        Some(self.cmp(other))
    }

    /// The ID the project is found by in a tree of projects.
    pub fn id(&self) -> (r: ProjectID)
        ensures
            r == self.id,
    {
        self.id.clone()
    }

    /// The ID of the project's parent, if it has one.
    pub fn parent_id(&self) -> (r: Option<ProjectID>)
        ensures
            r == self.parent_id,
    {
        match &self.parent_id {
            Some(p) => Some(p.clone()),
            None => None,
        }
    }

    /// Detaches the project from its parent and leaves everything else as it was.
    pub fn reset_parent(&mut self)
        ensures
            *final(self) == (Project { parent_id: None, ..*old(self) }),
    {
        self.parent_id = None;
    }

    /// The project as the client prints it: its ID (bright yellow where `colored`
    /// says that colours are shown), a space, and its name.
    pub fn display_string(&self, colored: bool) -> (r: String)
        ensures
            r@ == (if colored {
                painted(self.id@, Paint::BrightYellow)
            } else {
                self.id@
            }) + seq![' '] + self.name@,
    {
        let mut s = paint_when(self.id.as_str(), Paint::BrightYellow, colored);
        proof {
            reveal_strlit(" ");
        }
        s.append(" ");
        s.append(self.name.as_str());
        s
    }

    /// A project with the given ID and name, and every other field at its default:
    /// no parent, empty color and description, order 0, list view, all flags off.
    pub fn new(id: &str, name: &str) -> (p: Project)
        ensures
            p.id@ == id@,
            p.name@ == name@,
            p.parent_id is None,
            p.color@ == Seq::<char>::empty(),
            !p.is_shared,
            p.child_order == 0,
            !p.inbox_project,
            !p.is_favorite,
            p.view_style == ViewStyle::List,
            !p.can_assign_tasks,
            p.creator_uid is None,
            p.created_at is None,
            !p.is_archived,
            !p.is_deleted,
            !p.is_frozen,
            p.default_order == 0,
            p.description@ == Seq::<char>::empty(),
            !p.public_access,
            p.public_key is None,
            p.access is None,
            p.role is None,
            !p.is_collapsed,
            p.updated_at is None,
    {
        Project {
            id: String::from_str(id),
            name: String::from_str(name),
            parent_id: None,
            color: String::new(),
            is_shared: false,
            child_order: 0,
            inbox_project: false,
            is_favorite: false,
            view_style: ViewStyle::default(),
            can_assign_tasks: false,
            creator_uid: None,
            created_at: None,
            is_archived: false,
            is_deleted: false,
            is_frozen: false,
            default_order: 0,
            description: String::new(),
            public_access: false,
            public_key: None,
            access: None,
            role: None,
            is_collapsed: false,
            updated_at: None,
        }
    }
}

/// Swapping two projects reverses how they compare.
pub proof fn project_order_antisymmetric(a: &Project, b: &Project)
    ensures
        project_order(b, a) == project_order(a, b).reverse(),
{
    lemma_bytes_order_reverse(encode_utf8(a.id@), encode_utf8(b.id@));
}

/// The project order is transitive.
pub proof fn project_order_transitive(a: &Project, b: &Project, c: &Project)
    requires
        project_order(a, b) == Order::Less,
        project_order(b, c) == Order::Less,
    ensures
        project_order(a, c) == Order::Less,
{
    let (ia, ib, ic) = (encode_utf8(a.id@), encode_utf8(b.id@), encode_utf8(c.id@));
    lemma_text_order_equal(a.id@, b.id@);
    lemma_text_order_equal(b.id@, c.id@);
    if a.child_order == b.child_order && b.child_order == c.child_order {
        lemma_bytes_order_transitive(ia, ib, ic);
    }
}

/// A project with a smaller order under its parent comes first, whatever the IDs;
/// projects with the same order tie exactly when their IDs are equal.
pub proof fn project_order_by_child_order_first(a: &Project, b: &Project)
    ensures
        a.child_order < b.child_order ==> project_order(a, b) == Order::Less,
        a.child_order > b.child_order ==> project_order(a, b) == Order::Greater,
        a.child_order == b.child_order ==> (project_order(a, b) == Order::Equal <==> a.id@ == b.id@),
        a.child_order == b.child_order ==> project_order(a, b) == bytes_order(
            encode_utf8(a.id@),
            encode_utf8(b.id@),
        ),
{
    lemma_text_order_equal(a.id@, b.id@);
}

/// Two projects tie exactly when they have the same order and the same ID.
pub proof fn project_order_tie(a: &Project, b: &Project)
    ensures
        (project_order(a, b) == Order::Equal) == (a.child_order == b.child_order && a.id@ == b.id@),
{
    lemma_text_order_equal(a.id@, b.id@);
}

/// Command used to create a new [`Project`].
#[derive(Debug)]
pub struct CreateProject {
    /// Name of the project to create.
    pub name: String,
    /// Makes the newly created project a child of this parent project.
    pub parent_id: Option<ProjectID>,
    /// Color of the project icon.
    pub color: Option<String>,
    /// Mark as favorite or not.
    pub favorite: Option<bool>,
    /// Sets the view style of the project.
    pub view_style: Option<ViewStyle>,
}

impl Default for CreateProject {
    fn default() -> (r: CreateProject)
        ensures
            r.name@ == Seq::<char>::empty(),
            r.parent_id is None,
            r.color is None,
            r.favorite is None,
            r.view_style is None,
    {
        CreateProject {
            name: String::new(),
            parent_id: None,
            color: None,
            favorite: None,
            view_style: None,
        }
    }
}

} // verus!
