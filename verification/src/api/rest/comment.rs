//! Comments on projects and tasks.
use crate::api::rest::project::ProjectID;
use crate::api::rest::task::TaskID;
use vstd::prelude::*;

verus! {

/// CommentID describes the unique ID of a [`Comment`].
pub type CommentID = String;

/// ThreadID is the ID of the location where the comment is posted.
///
/// Used for creating comments — the request body uses `project_id` or `task_id`.
/// The v1 API response uses `item_id` for task comments instead.
#[derive(Debug, Clone)]
pub enum ThreadID {
    /// The ID of the project this comment is attached to.
    Project {
        /// The ID of the [`super::project::Project`].
        project_id: ProjectID,
    },
    /// The ID of the task this comment is attached to.
    Task {
        /// The ID of the [`super::task::Task`].
        task_id: TaskID,
    },
}

/// Comment describes a Comment from the Todoist API v1.
///
/// Taken from the [Developer Documentation](https://developer.todoist.com/api/v1/#comments).
#[derive(Debug, Clone)]
pub struct Comment {
    /// The unique ID of a comment.
    pub id: CommentID,
    /// The task this comment is attached to (v1 uses `item_id`).
    pub item_id: Option<TaskID>,
    /// The project this comment is attached to (if it's a project comment).
    pub project_id: Option<ProjectID>,
    /// The user who posted this comment.
    pub posted_uid: Option<String>,
    /// The date when the comment was posted.
    pub posted_at: Option<String>,
    /// Contains the comment text with markdown.
    pub content: String,
    /// Optional attachment file description.
    pub file_attachment: Option<serde_json::Value>,
    /// User IDs to notify about this comment.
    pub uids_to_notify: Option<serde_json::Value>,
    /// Whether this comment has been deleted.
    pub is_deleted: bool,
    /// Reactions on this comment (opaque for now).
    pub reactions: Option<serde_json::Value>,
}

/// CreateComment allows to create a new comment through the API.
///
/// The create request still uses `task_id`/`project_id` in the body.
#[derive(Debug)]
pub struct CreateComment {
    /// The thread to attach the comment to.
    pub thread: ThreadID,
    /// The text of the comment. Supports markdown.
    pub content: String,
}

} // verus!
