# doist

The data model and the decisions of a command-line client for the Todoist REST
API v1, verified with Verus.

- `src/api/rest/`: projects, tasks, comments and sections; the order projects
  and tasks are listed in, with its laws (antisymmetry, transitivity, ties);
  reading the calendar date of a due date; how due dates and priorities are shown.
- `src/tasks/mv.rs`: moving a task into a section of its project as a state
  machine, from what the API answered to what to ask it next.
- `src/order.rs`, `src/text.rs`, `src/paint.rs`: lexicographic orders, text
  comparison, and terminal colours (through owo-colors).
- `app/`: the serde and clap forms of the types, `Display` and `Ord` for them,
  and the asynchronous driver of the move command.
