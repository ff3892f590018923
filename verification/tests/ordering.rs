use doist::api::rest::project::Project;
use doist::api::rest::task::{DueDate, Priority, Task};
use doist::order::{compare_bytes, compare_str, Order};
use std::cmp::Ordering;

fn exact(date: &str) -> Option<DueDate> {
    Some(DueDate {
        string: "some day".to_string(),
        date: date.to_string(),
        is_recurring: false,
        timezone: Some("Europe/Athens".to_string()),
        lang: None,
    })
}

fn loose(date: &str) -> Option<DueDate> {
    Some(DueDate {
        string: "some day".to_string(),
        date: date.to_string(),
        is_recurring: false,
        timezone: None,
        lang: None,
    })
}

#[test]
fn bytes_compare_lexicographically() {
    assert_eq!(compare_bytes(b"abc", b"abd"), Order::Less);
    assert_eq!(compare_bytes(b"abd", b"abc"), Order::Greater);
    assert_eq!(compare_bytes(b"ab", b"abc"), Order::Less);
    assert_eq!(compare_bytes(b"abc", b"ab"), Order::Greater);
    assert_eq!(compare_bytes(b"", b""), Order::Equal);
    assert_eq!(compare_bytes(b"abc", b"abc"), Order::Equal);
}

#[test]
fn strings_compare_like_std() {
    let words = ["", "a", "B", "b", "ab", "é", "z", "zz", "Ω", "10", "9"];
    for x in words {
        for y in words {
            assert_eq!(compare_str(x, y).to_std(), x.cmp(y), "{x} vs {y}");
        }
    }
}

#[test]
fn projects_order_by_child_order_then_id() {
    let mut a = Project::new("2", "a");
    let mut b = Project::new("1", "b");
    a.child_order = 1;
    b.child_order = 2;
    assert_eq!(a.cmp(&b), Ordering::Less);
    assert_eq!(b.cmp(&a), Ordering::Greater);
    b.child_order = 1;
    assert_eq!(a.cmp(&b), Ordering::Greater);
    assert_eq!(a.partial_cmp(&b), Some(Ordering::Greater));
    assert_eq!(a.cmp(&a.clone()), Ordering::Equal);
}

#[test]
fn projects_with_negative_order_come_first() {
    let mut a = Project::new("a", "a");
    let b = Project::new("b", "b");
    a.child_order = -3;
    assert_eq!(a.cmp(&b), Ordering::Less);
}

#[test]
fn tasks_with_exact_time_come_first() {
    let mut a = Task::new("1", "a");
    let mut b = Task::new("2", "b");
    a.due = exact("2022-08-27");
    b.priority = Priority::Urgent;
    assert_eq!(a.cmp(&b), Ordering::Less);
    assert_eq!(b.cmp(&a), Ordering::Greater);
    b.due = exact("2022-08-26");
    assert_eq!(a.cmp(&b), Ordering::Greater);
}

#[test]
fn tasks_without_timezone_order_by_priority() {
    let mut a = Task::new("1", "a");
    let mut b = Task::new("2", "b");
    a.due = loose("2022-08-27");
    b.due = loose("2022-08-26");
    a.priority = Priority::High;
    assert_eq!(a.cmp(&b), Ordering::Less);
    b.priority = Priority::VeryHigh;
    assert_eq!(a.cmp(&b), Ordering::Greater);
}

#[test]
fn tasks_fall_back_to_child_order_and_id() {
    let mut a = Task::new("b", "a");
    let mut b = Task::new("a", "b");
    a.child_order = 1;
    b.child_order = 2;
    assert_eq!(a.cmp(&b), Ordering::Less);
    b.child_order = 1;
    assert_eq!(a.cmp(&b), Ordering::Greater);
    assert_eq!(a.partial_cmp(&b), Some(Ordering::Greater));
    let mut c = a.clone();
    assert_eq!(a.cmp(&c), Ordering::Equal);
    c.due = exact("2022-08-27");
    let mut d = a.clone();
    d.due = exact("2022-08-27");
    assert_eq!(c.cmp(&d), Ordering::Equal);
}

#[test]
fn sorting_tasks_gives_ui_order() {
    let mut urgent = Task::new("u", "urgent");
    urgent.priority = Priority::Urgent;
    let mut timed = Task::new("t", "timed");
    timed.due = exact("2023-01-01");
    let plain = Task::new("p", "plain");
    let mut tasks = vec![plain.clone(), urgent.clone(), timed.clone()];
    tasks.sort_by(|x, y| x.cmp(y));
    let ids: Vec<&str> = tasks.iter().map(|t| t.id.as_str()).collect();
    assert_eq!(ids, vec!["t", "u", "p"]);
}

fn sample_tasks() -> Vec<Task> {
    let mut tasks = Vec::new();
    for (i, (due, priority, order)) in [
        (exact("2022-08-27"), Priority::Normal, 0),
        (exact("2022-08-26"), Priority::Urgent, 1),
        (loose("2022-08-25"), Priority::High, 1),
        (None, Priority::High, 0),
        (None, Priority::High, 2),
        (None, Priority::Normal, 2),
        (exact("2022-08-27"), Priority::VeryHigh, 0),
    ]
    .into_iter()
    .enumerate()
    {
        let mut t = Task::new(&format!("id{}", i % 3), "task");
        t.due = due;
        t.priority = priority;
        t.child_order = order;
        tasks.push(t);
    }
    tasks
}

#[test]
fn task_order_is_antisymmetric_and_transitive_on_samples() {
    let tasks = sample_tasks();
    for a in &tasks {
        for b in &tasks {
            assert_eq!(b.cmp(a), a.cmp(b).reverse());
            for c in &tasks {
                if a.cmp(b) == Ordering::Less && b.cmp(c) == Ordering::Less {
                    assert_eq!(a.cmp(c), Ordering::Less);
                }
            }
        }
    }
}

#[test]
fn project_order_is_antisymmetric_and_transitive_on_samples() {
    let mut projects = Vec::new();
    for (id, order) in [("b", 0), ("a", 0), ("a", 1), ("c", -1), ("", 1)] {
        let mut p = Project::new(id, "p");
        p.child_order = order;
        projects.push(p);
    }
    for a in &projects {
        for b in &projects {
            assert_eq!(b.cmp(a), a.cmp(b).reverse());
            assert_eq!(a.cmp(b) == Ordering::Equal, a.child_order == b.child_order && a.id == b.id);
            for c in &projects {
                if a.cmp(b) == Ordering::Less && b.cmp(c) == Ordering::Less {
                    assert_eq!(a.cmp(c), Ordering::Less);
                }
            }
        }
    }
}
