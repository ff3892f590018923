use doist::api::rest::comment::{CreateComment, ThreadID};
use doist::api::rest::project::{CreateProject, Project, ViewStyle};
use doist::api::rest::section::CreateSection;
use doist::api::rest::task::{CreateTask, Priority, Task, TaskDue, UpdateTask, UtcDateTime};

#[test]
fn new_project_has_defaults() {
    let p = Project::new("1", "Inbox");
    assert_eq!(p.id, "1");
    assert_eq!(p.name, "Inbox");
    assert_eq!(p.view_style, ViewStyle::List);
    assert_eq!(p.child_order, 0);
    assert!(p.parent_id.is_none() && p.access.is_none());
}

#[test]
fn new_task_has_defaults() {
    let t = Task::new("1", "Buy milk");
    assert_eq!(t.id, "1");
    assert_eq!(t.content, "Buy milk");
    assert_eq!(t.project_id, "");
    assert_eq!(t.priority, Priority::Normal);
    assert_eq!(t.day_order, -1);
    assert!(t.labels.is_empty() && t.due.is_none());
}

#[test]
fn tree_accessors_and_reset() {
    let mut t = Task::new("1", "x");
    t.parent_id = Some("0".to_string());
    assert_eq!(t.id(), "1");
    assert_eq!(t.parent_id(), Some("0".to_string()));
    let before = t.clone();
    t.reset_parent();
    assert_eq!(t.parent_id(), None);
    assert_eq!(t, Task { parent_id: None, ..before });

    let mut p = Project::new("2", "y");
    p.parent_id = Some("1".to_string());
    assert_eq!(p.id(), "2");
    assert_eq!(p.parent_id(), Some("1".to_string()));
    p.reset_parent();
    assert_eq!(p.parent_id(), None);
}

#[test]
fn commands_default_to_empty() {
    let c = CreateProject::default();
    assert!(c.name.is_empty() && c.parent_id.is_none() && c.view_style.is_none());
    let t = CreateTask::default();
    assert!(t.content.is_empty() && t.labels.is_empty() && t.due.is_none());
    assert_eq!(
        UpdateTask::default(),
        UpdateTask {
            content: None,
            description: None,
            labels: None,
            priority: None,
            due: None,
            due_lang: None,
            assignee: None
        }
    );
    let s = CreateSection::default();
    assert!(s.name.is_empty() && s.project_id.is_empty());
    assert_eq!(ViewStyle::default(), ViewStyle::List);
}

#[test]
fn comments_attach_to_threads() {
    let c = CreateComment {
        thread: ThreadID::Task { task_id: "1".to_string() },
        content: "hi".to_string(),
    };
    assert!(matches!(c.thread, ThreadID::Task { ref task_id } if task_id == "1"));
    let due = TaskDue::DateTime(UtcDateTime { seconds: 0, nanoseconds: 0 });
    assert_eq!(due, TaskDue::DateTime(UtcDateTime { seconds: 0, nanoseconds: 0 }));
}
