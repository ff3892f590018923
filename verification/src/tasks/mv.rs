//! Moving a task into a section of its current project, creating the section if
//! it doesn't already exist.
//!
//! The command alternates requests to the API with decisions. The decisions are
//! a state machine here: [`MoveState::start`] and [`MoveState::step`] take what
//! the API answered and say what to ask it next.
use crate::api::rest::project::ProjectID;
use crate::api::rest::section::{CreateSection, Section, SectionID};
use crate::api::rest::task::{Task, TaskID};
use crate::paint::{paint_when, painted, Paint};
use crate::text::{eq_ignore_ascii_case, str_eq, text_eq_ignore_ascii_case};
use vstd::prelude::*;

verus! {

/// Arguments of the command.
#[derive(Debug)]
pub struct Params {
    /// The ID of the task to move.
    pub task: TaskID,
    /// Name of the section to move the task into, within the task's current project.
    /// Created automatically if no section with this name exists yet.
    pub section: String,
}

/// Whether `s` is the section named `name` in the project `project_id`; names are
/// compared ignoring ASCII case.
pub open spec fn section_matches(s: Section, project_id: Seq<char>, name: Seq<char>) -> bool {
    s.project_id@ == project_id && text_eq_ignore_ascii_case(s.name@, name)
}

/// Whether `i` is the position of the first section in `sections` that matches.
pub open spec fn is_first_match(
    sections: Seq<Section>,
    project_id: Seq<char>,
    name: Seq<char>,
    i: int,
) -> bool {
    &&& 0 <= i < sections.len()
    &&& section_matches(sections[i], project_id, name)
    &&& forall|j: int| 0 <= j < i ==> !section_matches(#[trigger] sections[j], project_id, name)
}

/// Whether no section in `sections` matches.
pub open spec fn has_no_match(sections: Seq<Section>, project_id: Seq<char>, name: Seq<char>) -> bool {
    forall|j: int| 0 <= j < sections.len() ==> !section_matches(#[trigger] sections[j], project_id, name)
}

/// Finds the first section named `name`, ignoring ASCII case, in the project
/// `project_id`.
pub fn find_section(sections: &Vec<Section>, project_id: &str, name: &str) -> (r: Option<usize>)
    ensures
        r matches Some(i) ==> is_first_match(sections@, project_id@, name@, i as int),
        r is None <==> has_no_match(sections@, project_id@, name@),
{
    let mut i: usize = 0;
    while i < sections.len()
        invariant
            i <= sections.len(),
            forall|j: int| 0 <= j < i ==> !section_matches(#[trigger] sections@[j], project_id@, name@),
        decreases sections.len() - i,
    {
        let s = &sections[i];
        if str_eq(s.project_id.as_str(), project_id) && eq_ignore_ascii_case(s.name.as_str(), name) {
            return Some(i);
        }
        i = i + 1;
    }
    None
}

/// What the command reports once the task has moved.
pub open spec fn move_report(task_id: Seq<char>, section_name: Seq<char>, colored: bool) -> Seq<char> {
    "moved task "@ + (if colored {
        painted(task_id, Paint::BrightRed)
    } else {
        task_id
    }) + " to section "@ + section_name
}

/// Where the command stands.
#[derive(Debug, Clone, PartialEq, Eq)]
pub enum MoveState {
    /// Waiting for the task, to learn its project.
    FetchingTask { task_id: TaskID, section: String },
    /// Waiting for the sections, to look for the one named `section` in `project_id`.
    FetchingSections { task_id: TaskID, section: String, project_id: ProjectID },
    /// Waiting for the section that was missing to be created.
    CreatingSection { task_id: TaskID },
    /// Waiting for the task to be moved into the section named `section_name`.
    Moving { task_id: TaskID, section_name: String },
    /// The task has been moved.
    Done,
}

/// What the API answered.
#[derive(Debug)]
pub enum MoveEvent {
    /// The task to move.
    TaskFetched(Task),
    /// All sections.
    SectionsFetched(Vec<Section>),
    /// The section that was created.
    SectionCreated(Section),
    /// The task was moved.
    TaskMoved,
}

/// What to do next.
#[derive(Debug, Clone, PartialEq, Eq)]
pub enum MoveAction {
    /// Fetch the task with this ID.
    FetchTask(TaskID),
    /// Fetch all sections.
    FetchSections,
    /// Create this section.
    CreateSection(CreateSection),
    /// Move the task into the section.
    MoveTask { task_id: TaskID, section_id: SectionID },
    /// Report that the task moved into the section named `section_name`; the
    /// command is done. [`report_line`] gives the line to print.
    Report { task_id: TaskID, section_name: String },
}

/// The state and action after a task is moved into section `s`.
pub open spec fn moving_into(task_id: TaskID, s: Section) -> (MoveState, MoveAction) {
    (
        MoveState::Moving { task_id, section_name: s.name },
        MoveAction::MoveTask { task_id, section_id: s.id },
    )
}

/// Whether `next` follows from `state` on `event`: the steps of the command.
pub open spec fn move_step(state: MoveState, event: MoveEvent, next: Option<(MoveState, MoveAction)>) -> bool {
    match (state, event) {
        (MoveState::FetchingTask { task_id, section }, MoveEvent::TaskFetched(task)) => next == Some(
            (
                MoveState::FetchingSections { task_id, section, project_id: task.project_id },
                MoveAction::FetchSections,
            ),
        ),
        (
            MoveState::FetchingSections { task_id, section, project_id },
            MoveEvent::SectionsFetched(sections),
        ) => {
            ||| exists|i: int|
                is_first_match(sections@, project_id@, section@, i) && next == Some(
                    moving_into(task_id, #[trigger] sections@[i]),
                )
            ||| has_no_match(sections@, project_id@, section@) && next == Some(
                (
                    MoveState::CreatingSection { task_id },
                    MoveAction::CreateSection(CreateSection { name: section, project_id }),
                ),
            )
        },
        (MoveState::CreatingSection { task_id }, MoveEvent::SectionCreated(s)) => next == Some(
            moving_into(task_id, s),
        ),
        (MoveState::Moving { task_id, section_name }, MoveEvent::TaskMoved) => next == Some(
            (MoveState::Done, MoveAction::Report { task_id, section_name }),
        ),
        _ => next is None,
    }
}

/// Clones a string, keeping its value.
fn copy_string(s: &String) -> (r: String)
    ensures
        r == *s,
{
    s.clone()
}

/// A copy of section `s`.
fn copy_section(s: &Section) -> (r: Section)
    ensures
        r == *s,
{
    Section { id: copy_string(&s.id), project_id: copy_string(&s.project_id), name: copy_string(&s.name) }
}

/// The line reporting that the task `task_id` moved into the section named
/// `section_name`, the task's ID in bright red where `colored` says that colours
/// are shown.
pub fn report_line(task_id: &str, section_name: &str, colored: bool) -> (r: String)
    ensures
        r@ == move_report(task_id@, section_name@, colored),
{
    let mut r = String::from_str("moved task ");
    let id = paint_when(task_id, Paint::BrightRed, colored);
    r.append(id.as_str());
    r.append(" to section ");
    r.append(section_name);
    r
}

impl MoveState {
    /// Starts moving the task of `params`: first the task is fetched.
    pub fn start(params: &Params) -> (r: (MoveState, MoveAction))
        ensures
            r == (
                MoveState::FetchingTask { task_id: params.task, section: params.section },
                MoveAction::FetchTask(params.task),
            ),
    {
        (
            MoveState::FetchingTask {
                task_id: copy_string(&params.task),
                section: copy_string(&params.section),
            },
            MoveAction::FetchTask(copy_string(&params.task)),
        )
    }

    /// The next state and action once the API answered `event`; `None` where the
    /// answer is not the one the command waits for.
    ///
    /// The task's project is learned from the task. The first section of that
    /// project whose name matches the requested one, ignoring ASCII case, receives
    /// the task; where there is none, a section with the requested name is created
    /// in the task's project and receives it. Once moved, the task's ID and the
    /// section's name are reported, as [`report_line`] writes them.
    pub fn step(self, event: MoveEvent) -> (r: Option<(MoveState, MoveAction)>)
        ensures
            move_step(self, event, r),
    {
        match (self, event) {
            (MoveState::FetchingTask { task_id, section }, MoveEvent::TaskFetched(task)) => {
                Some(
                    (
                        MoveState::FetchingSections { task_id, section, project_id: task.project_id },
                        MoveAction::FetchSections,
                    ),
                )
            },
            (
                MoveState::FetchingSections { task_id, section, project_id },
                MoveEvent::SectionsFetched(sections),
            ) => {
                match find_section(&sections, project_id.as_str(), section.as_str()) {
                    Some(i) => {
                        let s = copy_section(&sections[i]);
                        Some(
                            (
                                MoveState::Moving { task_id: copy_string(&task_id), section_name: s.name },
                                MoveAction::MoveTask { task_id, section_id: s.id },
                            ),
                        )
                    },
                    None => Some(
                        (
                            MoveState::CreatingSection { task_id },
                            MoveAction::CreateSection(CreateSection { name: section, project_id }),
                        ),
                    ),
                }
            },
            (MoveState::CreatingSection { task_id }, MoveEvent::SectionCreated(s)) => {
                Some(
                    (
                        MoveState::Moving { task_id: copy_string(&task_id), section_name: s.name },
                        MoveAction::MoveTask { task_id, section_id: s.id },
                    ),
                )
            },
            (MoveState::Moving { task_id, section_name }, MoveEvent::TaskMoved) => {
                Some((MoveState::Done, MoveAction::Report { task_id, section_name }))
            },
            _ => None,
        }
    }
}

/// The state and action the command starts with for `params`.
pub open spec fn start_of(params: Params) -> (MoveState, MoveAction) {
    (
        MoveState::FetchingTask { task_id: params.task, section: params.section },
        MoveAction::FetchTask(params.task),
    )
}

/// Whether `steps` is a run of the command for `params` on the answers `events`:
/// it begins where [`MoveState::start`] begins, and each step follows from the one
/// before on the next answer, as [`MoveState::step`] takes it.
pub open spec fn is_move_run(params: Params, steps: Seq<(MoveState, MoveAction)>, events: Seq<MoveEvent>) -> bool {
    &&& steps.len() == events.len() + 1
    &&& steps[0] == start_of(params)
    &&& forall|i: int| 0 <= i < events.len() ==> move_step(#[trigger] steps[i].0, events[i], Some(steps[i + 1]))
}

/// The task a state is working on; none once the command is done.
pub open spec fn task_of(s: MoveState) -> Option<TaskID> {
    match s {
        MoveState::FetchingTask { task_id, .. } => Some(task_id),
        MoveState::FetchingSections { task_id, .. } => Some(task_id),
        MoveState::CreatingSection { task_id } => Some(task_id),
        MoveState::Moving { task_id, .. } => Some(task_id),
        MoveState::Done => None,
    }
}

/// Whether `a` asks to move a task.
pub open spec fn is_move_request(a: MoveAction) -> bool {
    a is MoveTask
}

/// The project of the task that a run fetched first, if its first answer was a task.
pub open spec fn fetched_project(events: Seq<MoveEvent>) -> Option<ProjectID> {
    if events.len() > 0 {
        match events[0] {
            MoveEvent::TaskFetched(t) => Some(t.project_id),
            _ => None,
        }
    } else {
        None
    }
}

/// What holds at every step of a run: the state is working on the requested task
/// and section name, in the project of the fetched task, unless the command is
/// done; a request to move a task is made only on entering `Moving`, for the
/// requested task; a request to create a section asks for the requested name in
/// the fetched task's project.
pub open spec fn run_step_holds(params: Params, project: Option<ProjectID>, step: (MoveState, MoveAction)) -> bool {
    &&& step.0 != MoveState::Done ==> task_of(step.0) == Some(params.task)
    &&& step.0 matches MoveState::FetchingTask { section, .. } ==> section == params.section
    &&& step.0 matches MoveState::FetchingSections { section, project_id, .. } ==> section == params.section
        && project == Some(project_id)
    &&& step.1 matches MoveAction::MoveTask { task_id, .. } ==> task_id == params.task && step.0 is Moving
    &&& step.1 matches MoveAction::CreateSection(c) ==> c.name == params.section && project == Some(
        c.project_id,
    )
}

/// One step keeps [`run_step_holds`].
proof fn lemma_step_keeps_task(
    params: Params,
    project: Option<ProjectID>,
    s: (MoveState, MoveAction),
    e: MoveEvent,
    n: (MoveState, MoveAction),
)
    requires
        run_step_holds(params, project, s),
        s.0 is FetchingTask ==> (e matches MoveEvent::TaskFetched(t) ==> project == Some(t.project_id)),
        move_step(s.0, e, Some(n)),
    ensures
        run_step_holds(params, project, n),
        s.0 is Moving ==> n.0 == MoveState::Done,
        s.0 != MoveState::Done,
{
}

/// Every step of a run keeps [`run_step_holds`].
proof fn lemma_run_steps_hold(params: Params, steps: Seq<(MoveState, MoveAction)>, events: Seq<MoveEvent>, i: int)
    requires
        is_move_run(params, steps, events),
        0 <= i < steps.len(),
    ensures
        run_step_holds(params, fetched_project(events), steps[i]),
        i > 0 ==> !(steps[i].0 is FetchingTask),
    decreases i,
{
    if i > 0 {
        lemma_run_steps_hold(params, steps, events, i - 1);
        lemma_step_keeps_task(params, fetched_project(events), steps[i - 1], events[i - 1], steps[i]);
    }
}

/// Over any run of the command: every request to move a task moves the task that
/// was asked for, at most one such request is made, once the command is done no
/// answer takes it further, and a section it creates has the requested name and
/// lies in the project of the fetched task.
pub proof fn move_run_moves_the_requested_task_once(
    params: Params,
    steps: Seq<(MoveState, MoveAction)>,
    events: Seq<MoveEvent>,
)
    requires
        is_move_run(params, steps, events),
    ensures
        forall|i: int|
            0 <= i < steps.len() ==> (#[trigger] steps[i].1 matches MoveAction::MoveTask { task_id, .. }
                ==> task_id == params.task),
        forall|i: int, j: int|
            0 <= i < j < steps.len() && is_move_request(#[trigger] steps[i].1) ==> !is_move_request(
                #[trigger] steps[j].1,
            ),
        forall|i: int| 0 <= i < steps.len() && #[trigger] steps[i].0 == MoveState::Done ==> i == steps.len() - 1,
        forall|e: MoveEvent, n: Option<(MoveState, MoveAction)>|
            #[trigger] move_step(MoveState::Done, e, n) ==> n is None,
        forall|i: int|
            0 <= i < steps.len() ==> (#[trigger] steps[i].1 matches MoveAction::CreateSection(c)
                ==> c.name == params.section && fetched_project(events) == Some(c.project_id)),
{
    assert forall|i: int| 0 <= i < steps.len() implies (#[trigger] steps[i].1 matches MoveAction::CreateSection(
        c,
    ) ==> c.name == params.section && fetched_project(events) == Some(c.project_id)) by {
        lemma_run_steps_hold(params, steps, events, i);
    }
    assert forall|i: int| 0 <= i < steps.len() implies (#[trigger] steps[i].1 matches MoveAction::MoveTask {
        task_id,
        ..
    } ==> task_id == params.task) by {
        lemma_run_steps_hold(params, steps, events, i);
    }
    assert forall|i: int| 0 <= i < steps.len() && #[trigger] steps[i].0 == MoveState::Done implies i == steps.len()
        - 1 by {
        if i < steps.len() - 1 {
            lemma_run_steps_hold(params, steps, events, i);
            lemma_step_keeps_task(params, fetched_project(events), steps[i], events[i], steps[i + 1]);
        }
    }
    assert forall|i: int, j: int|
        0 <= i < j < steps.len() && is_move_request(#[trigger] steps[i].1) implies !is_move_request(
        #[trigger] steps[j].1,
    ) by {
        lemma_run_steps_hold(params, steps, events, i);
        lemma_step_keeps_task(params, fetched_project(events), steps[i], events[i], steps[i + 1]);
        if j > i + 1 {
            lemma_run_steps_hold(params, steps, events, i + 1);
            lemma_step_keeps_task(params, fetched_project(events), steps[i + 1], events[i + 1], steps[i + 2]);
        } else {
            lemma_run_steps_hold(params, steps, events, j);
        }
    }
}

} // verus!
