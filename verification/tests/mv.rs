use doist::api::rest::section::{CreateSection, Section};
use doist::api::rest::task::Task;
use doist::tasks::mv::{find_section, report_line, MoveAction, MoveEvent, MoveState, Params};

fn params(task: &str, section: &str) -> Params {
    Params { task: task.to_string(), section: section.to_string() }
}

fn assert_report(action: MoveAction, task_id: &str, section: &str) {
    assert_eq!(
        action,
        MoveAction::Report { task_id: task_id.to_string(), section_name: section.to_string() }
    );
}

#[test]
fn moves_to_existing_section() {
    let (state, action) = MoveState::start(&params("123", "done"));
    assert_eq!(action, MoveAction::FetchTask("123".to_string()));
    let (state, action) = state.step(MoveEvent::TaskFetched(Task::new("123", "task"))).unwrap();
    assert_eq!(action, MoveAction::FetchSections);
    let sections = vec![Section::new("sec1", "", "Done")];
    let (state, action) = state.step(MoveEvent::SectionsFetched(sections)).unwrap();
    assert_eq!(
        action,
        MoveAction::MoveTask { task_id: "123".to_string(), section_id: "sec1".to_string() }
    );
    let (state, action) = state.step(MoveEvent::TaskMoved).unwrap();
    assert_eq!(state, MoveState::Done);
    assert_report(action, "123", "Done");
}

#[test]
fn creates_missing_section() {
    let (state, _) = MoveState::start(&params("123", "Done"));
    let (state, _) = state.step(MoveEvent::TaskFetched(Task::new("123", "task"))).unwrap();
    let (state, action) = state.step(MoveEvent::SectionsFetched(vec![])).unwrap();
    assert_eq!(
        action,
        MoveAction::CreateSection(CreateSection {
            name: "Done".to_string(),
            project_id: "".to_string()
        })
    );
    let (state, action) =
        state.step(MoveEvent::SectionCreated(Section::new("sec1", "", "Done"))).unwrap();
    assert_eq!(
        action,
        MoveAction::MoveTask { task_id: "123".to_string(), section_id: "sec1".to_string() }
    );
    let (state, action) = state.step(MoveEvent::TaskMoved).unwrap();
    assert_eq!(state, MoveState::Done);
    assert_report(action, "123", "Done");
}

#[test]
fn sections_of_other_projects_are_ignored() {
    let mut task = Task::new("7", "task");
    task.project_id = "p1".to_string();
    let (state, _) = MoveState::start(&params("7", "Later"));
    let (state, _) = state.step(MoveEvent::TaskFetched(task)).unwrap();
    let sections = vec![Section::new("a", "p2", "Later"), Section::new("b", "p1", "Soon")];
    let (state, action) = state.step(MoveEvent::SectionsFetched(sections)).unwrap();
    assert_eq!(state, MoveState::CreatingSection { task_id: "7".to_string() });
    assert_eq!(
        action,
        MoveAction::CreateSection(CreateSection {
            name: "Later".to_string(),
            project_id: "p1".to_string()
        })
    );
}

#[test]
fn first_matching_section_wins() {
    let sections = vec![
        Section::new("a", "p", "Other"),
        Section::new("b", "p", "LATER"),
        Section::new("c", "p", "later"),
    ];
    assert_eq!(find_section(&sections, "p", "later"), Some(1));
    assert_eq!(find_section(&sections, "q", "later"), None);
    assert_eq!(find_section(&sections, "p", "lat"), None);
}

#[test]
fn unexpected_answers_are_refused() {
    let (state, _) = MoveState::start(&params("1", "x"));
    assert!(state.clone().step(MoveEvent::TaskMoved).is_none());
    assert!(state.step(MoveEvent::SectionsFetched(vec![])).is_none());
    assert!(MoveState::Done.step(MoveEvent::TaskMoved).is_none());
}

#[test]
fn report_line_with_and_without_colours() {
    assert_eq!(report_line("123", "Done", false), "moved task 123 to section Done");
    assert_eq!(
        report_line("123", "Done", true),
        "moved task \x1b[91m123\x1b[39m to section Done"
    );
}

#[test]
fn a_run_moves_the_requested_task_once() {
    let mut actions = Vec::new();
    let (mut state, action) = MoveState::start(&params("42", "Later"));
    actions.push(action);
    for event in [
        MoveEvent::TaskFetched(Task::new("42", "task")),
        MoveEvent::SectionsFetched(vec![Section::new("s", "", "later")]),
        MoveEvent::TaskMoved,
    ] {
        let (next, action) = state.step(event).unwrap();
        state = next;
        actions.push(action);
    }
    let moves: Vec<&MoveAction> =
        actions.iter().filter(|a| matches!(a, MoveAction::MoveTask { .. })).collect();
    assert_eq!(
        moves,
        vec![&MoveAction::MoveTask { task_id: "42".to_string(), section_id: "s".to_string() }]
    );
    assert_eq!(state, MoveState::Done);
    assert!(state.step(MoveEvent::TaskMoved).is_none());
}
