//! Tasks as the Todoist API v1 describes them: their order in listings, their
//! priorities, due dates and how both are shown.
use crate::api::rest::project::ProjectID;
use crate::api::rest::section::SectionID;
use crate::order::{
    bytes_order, compare_str, int_order, lemma_bytes_order_reverse, lemma_bytes_order_transitive,
    lemma_text_order_equal, std_ordering, Order,
};
use crate::paint::{paint_when, painted, Paint};
use chrono::Datelike;
use std::cmp::Ordering;
use vstd::prelude::*;
use vstd::utf8::{decode_utf8, encode_utf8, is_char_boundary};

verus! {

/// TaskID describes the unique ID of a [`Task`].
pub type TaskID = String;

/// UserID is the unique ID of a User.
pub type UserID = String;

/// Priority as is given from the Todoist API.
///
/// 1 for Normal up to 4 for Urgent.
#[derive(Debug, Copy, Clone, PartialEq, Eq, PartialOrd, Ord, Structural)]
pub enum Priority {
    /// p4 in the Todoist UI.
    Normal,
    /// p3 in the Todoist UI.
    High,
    /// p2 in the Todoist UI.
    VeryHigh,
    /// p1 in the Todoist UI.
    Urgent,
}

/// The number the API uses for priority `p`: 1 for Normal up to 4 for Urgent.
pub open spec fn priority_value(p: Priority) -> int {
    match p {
        Priority::Normal => 1,
        Priority::High => 2,
        Priority::VeryHigh => 3,
        Priority::Urgent => 4,
    }
}

/// How the client labels priority `p`. The label runs the other way from the
/// API's number, as in the Todoist desktop client: Urgent is `p1`.
pub open spec fn priority_label(p: Priority) -> Seq<char> {
    match p {
        Priority::Normal => seq!['p', '4'],
        Priority::High => seq!['p', '3'],
        Priority::VeryHigh => seq!['p', '2'],
        Priority::Urgent => seq!['p', '1'],
    }
}

/// The colour the label of priority `p` is shown in, if any.
pub open spec fn priority_paint(p: Priority) -> Option<Paint> {
    match p {
        Priority::Normal => None,
        Priority::High => Some(Paint::Blue),
        Priority::VeryHigh => Some(Paint::Yellow),
        Priority::Urgent => Some(Paint::Red),
    }
}

impl Default for Priority {
    fn default() -> (r: Priority)
        ensures
            r == Priority::Normal,
    {
        Priority::Normal
    }
}

impl Priority {
    /// The number the API uses for this priority.
    pub fn value(&self) -> (r: u8)
        ensures
            r == priority_value(*self),
    {
        match self {
            Priority::Normal => 1,
            Priority::High => 2,
            Priority::VeryHigh => 3,
            Priority::Urgent => 4,
        }
    }

    /// The priority the API number `value` stands for, if any.
    pub fn from_value(value: u8) -> (r: Option<Priority>)
        ensures
            r matches Some(p) ==> priority_value(p) == value,
            r is None <==> !(1 <= value <= 4),
    {
        match value {
            1 => Some(Priority::Normal),
            2 => Some(Priority::High),
            3 => Some(Priority::VeryHigh),
            4 => Some(Priority::Urgent),
            _ => None,
        }
    }

    /// The priority as the client prints it: `p4` for Normal up to `p1` for Urgent,
    /// the higher ones coloured where `colored` says that colours are shown.
    pub fn display_string(&self, colored: bool) -> (r: String)
        ensures
            r@ == match priority_paint(*self) {
                Some(c) if colored => painted(priority_label(*self), c),
                _ => priority_label(*self),
            },
    {
        proof {
            reveal_strlit("p4");
            reveal_strlit("p3");
            reveal_strlit("p2");
            reveal_strlit("p1");
        }
        match self {
            Priority::Normal => String::from_str("p4"),
            Priority::High => paint_when("p3", Paint::Blue, colored),
            Priority::VeryHigh => paint_when("p2", Paint::Yellow, colored),
            Priority::Urgent => paint_when("p1", Paint::Red, colored),
        }
    }
}

/// A higher priority gets a label with a smaller number: the label's digit and the
/// API's number always add up to five.
pub proof fn priority_label_reverses_value(p: Priority)
    ensures
        priority_label(p).len() == 2,
        priority_label(p)[0] == 'p',
        (priority_label(p)[1] as int) - ('0' as int) == 5 - priority_value(p),
{
}

/// A calendar date, as chrono's `NaiveDate` holds it: the year, the month (1 to
/// 12) and the day of the month (1 to 31).
#[derive(Debug, Copy, Clone, PartialEq, Eq, Structural)]
pub struct CalendarDate {
    pub year: i32,
    pub month: u32,
    pub day: u32,
}

/// Chronological order of calendar dates: by year, then month, then day.
pub open spec fn calendar_order(a: CalendarDate, b: CalendarDate) -> Order {
    int_order(a.year as int, b.year as int).tie_break(
        int_order(a.month as int, b.month as int),
    ).tie_break(int_order(a.day as int, b.day as int))
}

/// Calendar dates are ordered chronologically: a different year decides
/// whatever the months and days, then a different month decides whatever the
/// days, then the day decides; only the same date ties.
pub proof fn calendar_order_is_chronological(a: CalendarDate, b: CalendarDate)
    ensures
        a.year < b.year ==> calendar_order(a, b) == Order::Less,
        a.year > b.year ==> calendar_order(a, b) == Order::Greater,
        a.year == b.year && a.month < b.month ==> calendar_order(a, b) == Order::Less,
        a.year == b.year && a.month > b.month ==> calendar_order(a, b) == Order::Greater,
        a.year == b.year && a.month == b.month && a.day < b.day ==> calendar_order(a, b) == Order::Less,
        a.year == b.year && a.month == b.month && a.day > b.day ==> calendar_order(a, b) == Order::Greater,
        calendar_order(a, b) == Order::Equal <==> a == b,
{
}

impl CalendarDate {
    /// Whether this date is the same as `other` or later.
    pub fn is_on_or_after(&self, other: &CalendarDate) -> (r: bool)
        ensures
            r == (calendar_order(*self, *other) != Order::Less),
            self.year != other.year ==> r == (self.year > other.year),
            self.year == other.year && self.month != other.month ==> r == (self.month > other.month),
            self.year == other.year && self.month == other.month ==> r == (self.day >= other.day),
    {
        proof {
            calendar_order_is_chronological(*self, *other);
        }
        if self.year != other.year {
            self.year > other.year
        } else if self.month != other.month {
            self.month > other.month
        } else {
            self.day >= other.day
        }
    }
}

/// What chrono's `NaiveDate::parse_from_str` gives for `text` and the format
/// `fmt`: the year, month and day of the parsed date, or nothing where parsing
/// fails. Parsing follows chrono's strftime-like format rules.
pub uninterp spec fn parsed_date_fields(text: Seq<char>, fmt: Seq<char>) -> Option<(i32, u32, u32)>;

/// Runs chrono's `NaiveDate::parse_from_str(text, fmt)` and returns the year,
/// month and day of the date it parsed, or `None` where it failed. The result is
/// named by [`parsed_date_fields`]; chrono's `Datelike` documentation gives the
/// ranges of month (1 to 12) and day (1 to 31).
#[verifier::external_body]
fn parse_date_fields(text: &str, fmt: &str) -> (r: Option<(i32, u32, u32)>)
    ensures
        r == parsed_date_fields(text@, fmt@),
        r matches Some((_, m, d)) ==> 1 <= m <= 12 && 1 <= d <= 31,
{
    match chrono::NaiveDate::parse_from_str(text, fmt) {
        Ok(date) => Some((date.year(), date.month(), date.day())),
        Err(_) => None,
    }
}

/// The format due dates are parsed with: `%Y-%m-%d`.
pub open spec fn ymd_format() -> Seq<char> {
    seq!['%', 'Y', '-', '%', 'm', '-', '%', 'd']
}

/// The first ten bytes of `text`, where `text` has at least ten bytes in UTF-8
/// and the tenth ends a character; nothing otherwise. This is what `text.get(..10)`
/// gives.
pub open spec fn leading_ten_bytes(text: Seq<char>) -> Option<Seq<char>> {
    let bytes = encode_utf8(text);
    if bytes.len() >= 10 && is_char_boundary(bytes, 10) {
        Some(decode_utf8(bytes.subrange(0, 10)))
    } else {
        None
    }
}

/// The calendar date a due-date string starts with: its first ten bytes parsed
/// as `%Y-%m-%d`.
pub open spec fn leading_calendar_date(date: Seq<char>) -> Option<CalendarDate> {
    match leading_ten_bytes(date) {
        Some(head) => match parsed_date_fields(head, ymd_format()) {
            Some((y, m, d)) => Some(CalendarDate { year: y, month: m, day: d }),
            None => None,
        },
        None => None,
    }
}

/// The UTF-8 encoding of two texts one after the other is the encoding of the
/// first followed by that of the second.
proof fn lemma_encode_utf8_concat(a: Seq<char>, b: Seq<char>)
    ensures
        encode_utf8(a + b) == encode_utf8(a) + encode_utf8(b),
    decreases a.len(),
{
    if a.len() == 0 {
        assert(a + b =~= b);
    } else {
        assert((a + b).drop_first() =~= a.drop_first() + b);
        lemma_encode_utf8_concat(a.drop_first(), b);
        assert(encode_utf8(a + b) =~= encode_utf8(a) + encode_utf8(b));
    }
}

/// In the encoding of two texts one after the other, the end of the first text's
/// bytes is a character boundary.
proof fn lemma_boundary_after_prefix(a: Seq<char>, b: Seq<char>)
    ensures
        is_char_boundary(encode_utf8(a + b), encode_utf8(a).len() as int),
    decreases a.len(),
{
    vstd::utf8::encode_utf8_valid_utf8(a + b);
    if a.len() > 0 {
        let bytes = encode_utf8(a + b);
        lemma_encode_utf8_concat(a, b);
        lemma_encode_utf8_concat(a.drop_first(), b);
        vstd::utf8::encode_utf8_first_scalar(a + b);
        assert((a + b)[0] == a[0]);
        assert((a + b).drop_first() =~= a.drop_first() + b);
        let first = vstd::utf8::encode_scalar(a[0] as u32);
        assert(bytes =~= first + encode_utf8(a.drop_first() + b));
        assert(vstd::utf8::pop_first_scalar(bytes) =~= encode_utf8(a.drop_first() + b));
        lemma_boundary_after_prefix(a.drop_first(), b);
    }
}

/// The date portion of a due-date value is its leading ten bytes: a date of ten
/// bytes followed by a time, a zone or anything else reads as that date.
pub proof fn leading_date_ignores_suffix(date: Seq<char>, rest: Seq<char>)
    requires
        encode_utf8(date).len() == 10,
    ensures
        leading_ten_bytes(date + rest) == Some(date),
        leading_calendar_date(date + rest) == leading_calendar_date(date),
{
    lemma_encode_utf8_concat(date, rest);
    lemma_boundary_after_prefix(date, rest);
    lemma_boundary_after_prefix(date, Seq::empty());
    assert(date + Seq::<char>::empty() =~= date);
    let bytes = encode_utf8(date + rest);
    assert(bytes.subrange(0, 10) =~= encode_utf8(date));
    assert(encode_utf8(date).subrange(0, 10) =~= encode_utf8(date));
    vstd::utf8::encode_utf8_decode_utf8(date);
}

/// The first ten bytes of `text`, as [`leading_ten_bytes`] describes them.
fn first_ten_bytes(text: &str) -> (r: Option<&str>)
    ensures
        leading_ten_bytes(text@) matches Some(head) ==> r matches Some(h) && h@ == head,
        leading_ten_bytes(text@) is None ==> r is None,
{
    if text.is_char_boundary(10) {
        let (head, _) = text.split_at(10);
        proof {
            let bytes = encode_utf8(text@);
            vstd::utf8::encode_utf8_valid_utf8(text@);
            assert(encode_utf8(head@) =~= bytes.subrange(0, 10));
            vstd::utf8::encode_utf8_decode_utf8(head@);
            assert(bytes.len() >= 10);
        }
        Some(head)
    } else {
        None
    }
}

/// Builds a calendar date from the fields chrono parsed.
pub fn calendar_date_from_fields(fields: Option<(i32, u32, u32)>) -> (r: Option<CalendarDate>)
    ensures
        r == (match fields {
            Some((y, m, d)) => Some(CalendarDate { year: y, month: m, day: d }),
            None => None,
        }),
{
    match fields {
        Some((year, month, day)) => Some(CalendarDate { year, month, day }),
        None => None,
    }
}

/// DueDate is the Due object from the Todoist API v1.
///
/// In v1, the due object has `date`, `timezone`, `string`, `lang`, and `is_recurring`.
/// When `timezone` is Some, it indicates an exact-time task. The exact datetime
/// derivation from date + timezone is not done yet: the date and timezone are
/// displayed separately.
#[derive(Debug, PartialEq, Eq, Clone)]
pub struct DueDate {
    /// Human-readable form of the due date.
    pub string: String,
    /// The date on which the Task is due (date-only string like "2022-08-27").
    pub date: String,
    /// Lets us know if it is recurring (reopens after close).
    pub is_recurring: bool,
    /// If set, the task has an exact time. The timezone name (e.g. "Europe/Athens").
    pub timezone: Option<String>,
    /// Language hint for the human-readable string.
    pub lang: Option<String>,
}

/// The date a due date is displayed with: the date, then a space and the
/// timezone where there is one.
pub open spec fn display_date_of(due: &DueDate) -> Seq<char> {
    match due.timezone {
        Some(tz) => due.date@ + seq![' '] + tz@,
        None => due.date@,
    }
}

impl DueDate {
    /// Returns the date portion parsed from Todoist's v1 due-date string, if valid.
    ///
    /// Todoist v1 returns date-only values (`YYYY-MM-DD`), floating date-times
    /// (`YYYY-MM-DDTHH:MM:SS[.ffffff]`) and fixed-zone date-times
    /// (`YYYY-MM-DDTHH:MM:SS[.ffffff]Z`) in the same `date` field: the first ten
    /// bytes are parsed as `%Y-%m-%d`.
    pub fn naive_date(&self) -> (r: Option<CalendarDate>)
        ensures
            r == leading_calendar_date(self.date@),
    {
        match first_ten_bytes(self.date.as_str()) {
            Some(head) => {
                let fmt = "%Y-%m-%d";
                proof {
                    reveal_strlit("%Y-%m-%d");
                    assert(fmt@ =~= ymd_format());
                }
                calendar_date_from_fields(parse_date_fields(head, fmt))
            },
            None => None,
        }
    }

    /// Returns a display string for the due date including timezone info if present.
    pub fn display_date(&self) -> (r: String)
        ensures
            r@ == display_date_of(self),
            self.timezone matches Some(tz) ==> r@ == self.date@ + seq![' '] + tz@,
            self.timezone is None ==> r@ == self.date@,
    {
        match &self.timezone {
            Some(tz) => {
                let mut s = self.date.clone();
                proof {
                    reveal_strlit(" ");
                }
                s.append(" ");
                s.append(tz.as_str());
                s
            },
            None => self.date.clone(),
        }
    }
}

/// Task describes a Task from the Todoist API v1.
///
/// Taken from the [Developer Documentation](https://developer.todoist.com/api/v1/#tasks).
#[derive(Debug, Eq, PartialEq, Clone)]
pub struct Task {
    /// Unique ID of a Task.
    pub id: TaskID,
    /// The user who owns the task.
    pub user_id: Option<UserID>,
    /// Shows which [`super::project::Project`] the Task belongs to.
    pub project_id: ProjectID,
    /// Set if the Task is also in a subsection of a Project.
    pub section_id: Option<SectionID>,
    /// If set, the Task is a subtask of another.
    pub parent_id: Option<TaskID>,
    /// The user who added the task.
    pub added_by_uid: Option<UserID>,
    /// The user who assigned the task.
    pub assigned_by_uid: Option<UserID>,
    /// The user responsible for the task.
    pub responsible_uid: Option<UserID>,
    /// The main content of the Task, also known as Task name.
    pub content: String,
    /// Description is the description found under the content.
    pub description: String,
    /// All associated labels of the Task. Just label names are used here.
    pub labels: Vec<String>,
    /// Whether the task is checked (completed).
    pub checked: bool,
    /// Whether the task has been deleted.
    pub is_deleted: bool,
    /// When the task was added.
    pub added_at: Option<String>,
    /// When the task was completed, if ever.
    pub completed_at: Option<String>,
    /// Who completed the task.
    pub completed_by_uid: Option<UserID>,
    /// When the task was last updated.
    pub updated_at: Option<String>,
    /// Order within subtasks of a parent or within a project/section.
    pub child_order: isize,
    /// Priority is how urgent the task is.
    pub priority: Priority,
    /// The due date of the Task.
    pub due: Option<DueDate>,
    /// Number of comments/notes on the task.
    pub note_count: usize,
    /// Day order for today/upcoming views.
    pub day_order: isize,
    /// Whether subtasks are collapsed in the UI.
    pub is_collapsed: bool,
    /// Deadline information (opaque for now).
    pub deadline: Option<serde_json::Value>,
    /// Duration information (opaque for now).
    pub duration: Option<serde_json::Value>,
}

/// The date of a task that has an exact time, that is, a due date with a timezone.
pub open spec fn exact_time_date(t: &Task) -> Option<Seq<char>> {
    match t.due {
        Some(d) => match d.timezone {
            Some(_) => Some(d.date@),
            None => None,
        },
        None => None,
    }
}

/// Tasks with an exact time come first, among themselves ordered by the bytes of
/// their date strings.
pub open spec fn exact_time_order(a: Option<Seq<char>>, b: Option<Seq<char>>) -> Order {
    match (a, b) {
        (Some(l), Some(r)) => bytes_order(encode_utf8(l), encode_utf8(r)),
        (Some(_), None) => Order::Less,
        (None, Some(_)) => Order::Greater,
        (None, None) => Order::Equal,
    }
}

/// The order tasks are listed in, a best attempt at the order of the Todoist UI:
/// tasks with an exact time first (by date), then higher priority first, then by
/// order among their siblings, then by ID.
pub open spec fn task_order(a: &Task, b: &Task) -> Order {
    exact_time_order(exact_time_date(a), exact_time_date(b)).tie_break(
        int_order(priority_value(b.priority), priority_value(a.priority)),
    ).tie_break(int_order(a.child_order as int, b.child_order as int)).tie_break(
        bytes_order(encode_utf8(a.id@), encode_utf8(b.id@)),
    )
}

/// The date string of a task with an exact time, as [`exact_time_date`] gives it.
fn exact_time_date_of(t: &Task) -> (r: Option<&String>)
    ensures
        exact_time_date(t) matches Some(d) ==> r matches Some(s) && s@ == d,
        exact_time_date(t) is None ==> r is None,
{
    match &t.due {
        Some(d) => match &d.timezone {
            Some(_) => Some(&d.date),
            None => None,
        },
        None => None,
    }
}

impl Task {
    /// Sorts on a best-attempt to make it sort similar to the Todoist UI, as
    /// [`task_order`] states.
    pub fn cmp(&self, other: &Self) -> (r: Ordering)
        ensures
            r == std_ordering(task_order(self, other)),
            exact_time_date(self) is Some && exact_time_date(other) is None ==> r == Ordering::Less,
            exact_time_date(self) is None && exact_time_date(other) is Some ==> r == Ordering::Greater,
            exact_time_date(self) == exact_time_date(other) && priority_value(self.priority)
                > priority_value(other.priority) ==> r == Ordering::Less,
            exact_time_date(self) == exact_time_date(other) && priority_value(self.priority)
                < priority_value(other.priority) ==> r == Ordering::Greater,
            exact_time_date(self) == exact_time_date(other) && self.priority == other.priority
                && self.child_order < other.child_order ==> r == Ordering::Less,
            exact_time_date(self) == exact_time_date(other) && self.priority == other.priority
                && self.child_order > other.child_order ==> r == Ordering::Greater,
            exact_time_date(self) == exact_time_date(other) && self.priority == other.priority
                && self.child_order == other.child_order ==> r == std_ordering(
                bytes_order(encode_utf8(self.id@), encode_utf8(other.id@)),
            ),
    {
        proof {
            task_order_by_keys(self, other);
        }
        match (exact_time_date_of(self), exact_time_date_of(other)) {
            (Some(left), Some(right)) => {
                let by_date = compare_str(left.as_str(), right.as_str());
                if by_date != Order::Equal {
                    return by_date.to_std();
                }
            },
            (Some(_), None) => {
                return Ordering::Less;
            },
            (None, Some(_)) => {
                return Ordering::Greater;
            },
            (None, None) => {},
        }
        let mine = self.priority.value();
        let theirs = other.priority.value();
        if mine > theirs {
            return Ordering::Less;
        }
        if mine < theirs {
            return Ordering::Greater;
        }
        if self.child_order < other.child_order {
            return Ordering::Less;
        }
        if self.child_order > other.child_order {
            return Ordering::Greater;
        }
        compare_str(self.id.as_str(), other.id.as_str()).to_std()
    }

    /// Tasks are totally ordered, so this always compares them.
    pub fn partial_cmp(&self, other: &Self) -> (r: Option<Ordering>)
        ensures
            r == Some(std_ordering(task_order(self, other))),
    {
        Some(self.cmp(other))
    }

    /// The ID the task is found by in a tree of tasks.
    pub fn id(&self) -> (r: TaskID)
        ensures
            r == self.id,
    {
        self.id.clone()
    }

    /// The ID of the task's parent task, if it is a subtask.
    pub fn parent_id(&self) -> (r: Option<TaskID>)
        ensures
            r == self.parent_id,
    {
        match &self.parent_id {
            Some(p) => Some(p.clone()),
            None => None,
        }
    }

    /// Makes the task a top-level task and leaves everything else as it was.
    pub fn reset_parent(&mut self)
        ensures
            *final(self) == (Task { parent_id: None, ..*old(self) }),
    {
        self.parent_id = None;
    }
}

/// Swapping two tasks reverses how they compare.
pub proof fn task_order_antisymmetric(a: &Task, b: &Task)
    ensures
        task_order(b, a) == task_order(a, b).reverse(),
{
    lemma_bytes_order_reverse(encode_utf8(a.id@), encode_utf8(b.id@));
    if let (Some(l), Some(r)) = (exact_time_date(a), exact_time_date(b)) {
        lemma_bytes_order_reverse(encode_utf8(l), encode_utf8(r));
    }
}

/// How tasks are ordered, key by key: a task with an exact time comes before one
/// without; between tasks with exact times, different dates decide by their bytes;
/// otherwise a higher priority comes first whatever the order among siblings and
/// the IDs; then a smaller order among siblings comes first whatever the IDs.
pub proof fn task_order_by_keys(a: &Task, b: &Task)
    ensures
        exact_time_date(a) is Some && exact_time_date(b) is None ==> task_order(a, b) == Order::Less,
        exact_time_date(a) is None && exact_time_date(b) is Some ==> task_order(a, b) == Order::Greater,
        exact_time_date(a) matches Some(l) ==> exact_time_date(b) matches Some(r) ==> l != r
            ==> task_order(a, b) == bytes_order(encode_utf8(l), encode_utf8(r)),
        exact_time_date(a) == exact_time_date(b) && priority_value(a.priority) > priority_value(
            b.priority,
        ) ==> task_order(a, b) == Order::Less,
        exact_time_date(a) == exact_time_date(b) && priority_value(a.priority) < priority_value(
            b.priority,
        ) ==> task_order(a, b) == Order::Greater,
        exact_time_date(a) == exact_time_date(b) && a.priority == b.priority && a.child_order
            < b.child_order ==> task_order(a, b) == Order::Less,
        exact_time_date(a) == exact_time_date(b) && a.priority == b.priority && a.child_order
            > b.child_order ==> task_order(a, b) == Order::Greater,
        exact_time_date(a) == exact_time_date(b) && a.priority == b.priority && a.child_order
            == b.child_order ==> task_order(a, b) == bytes_order(encode_utf8(a.id@), encode_utf8(b.id@)),
{
    if let (Some(l), Some(r)) = (exact_time_date(a), exact_time_date(b)) {
        lemma_text_order_equal(l, r);
    }
}

/// Two tasks tie exactly when they agree on the exact-time date, the priority, the
/// order among siblings and the ID.
pub proof fn task_order_tie(a: &Task, b: &Task)
    ensures
        (task_order(a, b) == Order::Equal) == (exact_time_date(a) == exact_time_date(b)
            && a.priority == b.priority && a.child_order == b.child_order && a.id@ == b.id@),
{
    lemma_text_order_equal(a.id@, b.id@);
    if let (Some(l), Some(r)) = (exact_time_date(a), exact_time_date(b)) {
        lemma_text_order_equal(l, r);
    }
}

/// The task order is transitive.
pub proof fn task_order_transitive(a: &Task, b: &Task, c: &Task)
    requires
        task_order(a, b) == Order::Less,
        task_order(b, c) == Order::Less,
    ensures
        task_order(a, c) == Order::Less,
{
    let (da, db, dc) = (exact_time_date(a), exact_time_date(b), exact_time_date(c));
    if let (Some(x), Some(y), Some(z)) = (da, db, dc) {
        lemma_text_order_equal(x, y);
        lemma_text_order_equal(y, z);
        let (ex, ey, ez) = (encode_utf8(x), encode_utf8(y), encode_utf8(z));
        if bytes_order(ex, ey) == Order::Less && bytes_order(ey, ez) == Order::Less {
            lemma_bytes_order_transitive(ex, ey, ez);
        }
    }
    lemma_text_order_equal(a.id@, b.id@);
    lemma_text_order_equal(b.id@, c.id@);
    let (ia, ib, ic) = (encode_utf8(a.id@), encode_utf8(b.id@), encode_utf8(c.id@));
    if bytes_order(ia, ib) == Order::Less && bytes_order(ib, ic) == Order::Less {
        lemma_bytes_order_transitive(ia, ib, ic);
    }
}

/// How the text of a due date is toned.
#[derive(Debug, Copy, Clone, PartialEq, Eq, Structural)]
pub enum DueTone {
    /// The date could not be read: the text is shown as it is.
    Plain,
    /// Due today or later: bright green.
    Upcoming,
    /// Due before today: bright red.
    Overdue,
}

/// What a due date is shown as, before colours are applied.
#[derive(Debug, Clone, PartialEq, Eq)]
pub struct DueLayout {
    /// Whether a repeat marker comes first.
    pub repeat: bool,
    /// The text that is shown.
    pub text: String,
    /// How the text is toned.
    pub tone: DueTone,
}

/// The text a due date is shown with: the date and timezone for a task with an
/// exact time, the human-readable string otherwise.
pub open spec fn due_text(due: &DueDate) -> Seq<char> {
    if due.timezone is Some {
        display_date_of(due)
    } else {
        due.string@
    }
}

/// The tone of a due date whose calendar date is `date`, seen on the day `today`:
/// plain where either date is unknown.
pub open spec fn due_tone(date: Option<CalendarDate>, today: Option<CalendarDate>) -> DueTone {
    match (date, today) {
        (Some(d), Some(t)) => if calendar_order(d, t) != Order::Less {
            DueTone::Upcoming
        } else {
            DueTone::Overdue
        },
        _ => DueTone::Plain,
    }
}

impl DueLayout {
    /// Lays out `due`, whose calendar date is `date`, as seen on the day `today`.
    pub fn decide(due: &DueDate, date: Option<CalendarDate>, today: Option<CalendarDate>) -> (r: DueLayout)
        ensures
            r.repeat == due.is_recurring,
            r.text@ == due_text(due),
            due.timezone matches Some(tz) ==> r.text@ == due.date@ + seq![' '] + tz@,
            due.timezone is None ==> r.text@ == due.string@,
            r.tone == due_tone(date, today),
    {
        let text = if due.timezone.is_some() {
            due.display_date()
        } else {
            due.string.clone()
        };
        let tone = match (date, today) {
            (Some(d), Some(t)) => if d.is_on_or_after(&t) {
                DueTone::Upcoming
            } else {
                DueTone::Overdue
            },
            _ => DueTone::Plain,
        };
        DueLayout { repeat: due.is_recurring, text, tone }
    }
}

/// The repeat marker: `[REPEAT] ` where colours are not shown, a repeat symbol
/// and a space where they are.
pub open spec fn repeat_marker(colored: bool) -> Seq<char> {
    if colored {
        seq!['\u{1f501}', ' ']
    } else {
        seq!['[', 'R', 'E', 'P', 'E', 'A', 'T', ']', ' ']
    }
}

/// How the text `text` of tone `tone` is shown, with or without colours.
pub open spec fn toned(text: Seq<char>, tone: DueTone, colored: bool) -> Seq<char> {
    match tone {
        DueTone::Upcoming if colored => painted(text, Paint::BrightGreen),
        DueTone::Overdue if colored => painted(text, Paint::BrightRed),
        _ => text,
    }
}

/// How the layout with repeat flag `repeat`, text `text` and tone `tone` is shown,
/// with or without colours.
pub open spec fn shown_layout(repeat: bool, text: Seq<char>, tone: DueTone, colored: bool) -> Seq<char> {
    (if repeat {
        repeat_marker(colored)
    } else {
        Seq::empty()
    }) + toned(text, tone, colored)
}

/// The colour of a shown due date follows its tone alone, whether it recurs or not:
/// with colours an overdue text is bright red and an upcoming one bright green,
/// and without colours, or with a plain tone, the text is unpainted; a recurring
/// date has the repeat marker in front.
pub proof fn due_colour_follows_tone_only(repeat: bool, text: Seq<char>, tone: DueTone, colored: bool)
    ensures
        ({
            let marker = if repeat {
                repeat_marker(colored)
            } else {
                Seq::empty()
            };
            &&& tone == DueTone::Overdue && colored ==> shown_layout(repeat, text, tone, colored)
                == marker + painted(text, Paint::BrightRed)
            &&& tone == DueTone::Upcoming && colored ==> shown_layout(repeat, text, tone, colored)
                == marker + painted(text, Paint::BrightGreen)
            &&& tone == DueTone::Plain || !colored ==> shown_layout(repeat, text, tone, colored)
                == marker + text
        }),
        repeat_marker(true) == seq!['\u{1f501}', ' '],
        repeat_marker(false) == seq!['[', 'R', 'E', 'P', 'E', 'A', 'T', ']', ' '],
{
}

/// A due date is upcoming when its date is today or later and overdue when it is
/// earlier, by the calendar: the year decides first, then the month, then the day.
pub proof fn due_tone_is_chronological(date: CalendarDate, today: CalendarDate)
    ensures
        due_tone(Some(date), Some(today)) == DueTone::Overdue <==> (date.year < today.year || (date.year
            == today.year && (date.month < today.month || (date.month == today.month && date.day
            < today.day)))),
        due_tone(Some(date), Some(today)) != DueTone::Plain,
{
    calendar_order_is_chronological(date, today);
}

/// Formats a [`DueDate`] using the given instant, by coloring the output based on
/// if it's too late or too soon compared to the instant's date in UTC.
pub struct DueDateFormatter<'a>(pub &'a DueDate, pub &'a UtcDateTime);

impl<'a> DueDateFormatter<'a> {
    /// The layout of the due date: its own calendar date decides the tone.
    pub fn layout(&self) -> (r: DueLayout)
        ensures
            r.repeat == self.0.is_recurring,
            r.text@ == due_text(self.0),
            r.tone == due_tone(leading_calendar_date(self.0.date@), utc_date_of(*self.1)),
    {
        DueLayout::decide(self.0, self.0.naive_date(), self.1.utc_date())
    }

    /// The due date as the client prints it, with colours where `colored` says
    /// that they are shown.
    pub fn display_string(&self, colored: bool) -> (r: String)
        ensures
            r@ == shown_layout(
                self.0.is_recurring,
                due_text(self.0),
                due_tone(leading_calendar_date(self.0.date@), utc_date_of(*self.1)),
                colored,
            ),
            ({
                let marker = if self.0.is_recurring {
                    repeat_marker(colored)
                } else {
                    Seq::empty()
                };
                let text = due_text(self.0);
                match due_tone(leading_calendar_date(self.0.date@), utc_date_of(*self.1)) {
                    DueTone::Overdue if colored => r@ == marker + painted(text, Paint::BrightRed),
                    DueTone::Upcoming if colored => r@ == marker + painted(text, Paint::BrightGreen),
                    _ => r@ == marker + text,
                }
            }),
    {
        proof {
            due_colour_follows_tone_only(
                self.0.is_recurring,
                due_text(self.0),
                due_tone(leading_calendar_date(self.0.date@), utc_date_of(*self.1)),
                colored,
            );
        }
        let layout = self.layout();
        let shown = match layout.tone {
            DueTone::Plain => layout.text.clone(),
            DueTone::Upcoming => paint_when(layout.text.as_str(), Paint::BrightGreen, colored),
            DueTone::Overdue => paint_when(layout.text.as_str(), Paint::BrightRed, colored),
        };
        let mut s = if layout.repeat {
            proof {
                reveal_strlit("[REPEAT] ");
                reveal_strlit("\u{1f501} ");
            }
            if colored {
                String::from_str("\u{1f501} ")
            } else {
                String::from_str("[REPEAT] ")
            }
        } else {
            String::new()
        };
        s.append(shown.as_str());
        s
    }
}

impl Task {
    /// A task with the given ID and content, in no project, section or parent,
    /// with normal priority, no due date, no labels, day order -1, and every other
    /// field empty, zero or off.
    pub fn new(id: &str, content: &str) -> (t: Task)
        ensures
            t.id@ == id@,
            t.content@ == content@,
            t.user_id is None,
            t.project_id@ == Seq::<char>::empty(),
            t.section_id is None,
            t.parent_id is None,
            t.added_by_uid is None,
            t.assigned_by_uid is None,
            t.responsible_uid is None,
            t.description@ == Seq::<char>::empty(),
            t.labels@.len() == 0,
            !t.checked,
            !t.is_deleted,
            t.added_at is None,
            t.completed_at is None,
            t.completed_by_uid is None,
            t.updated_at is None,
            t.child_order == 0,
            t.priority == Priority::Normal,
            t.due is None,
            t.note_count == 0,
            t.day_order == -1,
            !t.is_collapsed,
            t.deadline is None,
            t.duration is None,
    {
        Task {
            id: String::from_str(id),
            user_id: None,
            project_id: String::new(),
            section_id: None,
            parent_id: None,
            added_by_uid: None,
            assigned_by_uid: None,
            responsible_uid: None,
            content: String::from_str(content),
            description: String::new(),
            labels: Vec::new(),
            checked: false,
            is_deleted: false,
            added_at: None,
            completed_at: None,
            completed_by_uid: None,
            updated_at: None,
            child_order: 0,
            priority: Priority::default(),
            due: None,
            note_count: 0,
            day_order: -1,
            is_collapsed: false,
            deadline: None,
            duration: None,
        }
    }
}

/// An instant in UTC: whole seconds since the Unix epoch and the nanoseconds
/// past them, as chrono's `DateTime<Utc>` holds it (the nanoseconds reach up to
/// 1 999 999 999 only during a leap second).
#[derive(Debug, Copy, Clone, PartialEq, Eq, Structural)]
pub struct UtcDateTime {
    pub seconds: i64,
    pub nanoseconds: u32,
}

/// What chrono gives for the UTC date of the instant `seconds` and `nanoseconds`
/// after the Unix epoch: the year, month and day of
/// `DateTime::from_timestamp(seconds, nanoseconds)` through `date_naive`, or
/// nothing where chrono cannot represent the instant.
pub uninterp spec fn utc_date_fields(seconds: i64, nanoseconds: u32) -> Option<(i32, u32, u32)>;

/// Runs chrono's `DateTime::from_timestamp(seconds, nanoseconds)` and returns the
/// year, month and day of its `date_naive`, or `None` where `from_timestamp`
/// returns `None` (an out-of-range number of seconds or an invalid nanosecond).
/// The result is named by [`utc_date_fields`]; chrono's `Datelike` documentation
/// gives the ranges of month (1 to 12) and day (1 to 31).
#[verifier::external_body]
fn utc_date_parts(seconds: i64, nanoseconds: u32) -> (r: Option<(i32, u32, u32)>)
    ensures
        r == utc_date_fields(seconds, nanoseconds),
        r matches Some((_, m, d)) ==> 1 <= m <= 12 && 1 <= d <= 31,
{
    match chrono::DateTime::from_timestamp(seconds, nanoseconds) {
        Some(t) => Some((t.date_naive().year(), t.date_naive().month(), t.date_naive().day())),
        None => None,
    }
}

/// The UTC date of the instant `t`, where chrono can represent it.
pub open spec fn utc_date_of(t: UtcDateTime) -> Option<CalendarDate> {
    match utc_date_fields(t.seconds, t.nanoseconds) {
        Some((y, m, d)) => Some(CalendarDate { year: y, month: m, day: d }),
        None => None,
    }
}

impl UtcDateTime {
    /// The date of this instant in UTC, where chrono can represent the instant.
    pub fn utc_date(&self) -> (r: Option<CalendarDate>)
        ensures
            r == utc_date_of(*self),
    {
        calendar_date_from_fields(utc_date_parts(self.seconds, self.nanoseconds))
    }
}

/// Human representation of the due date.
#[derive(Debug, PartialEq)]
pub enum TaskDue {
    /// Human readable representation of the date.
    String(String),
    /// Loose target date with no exact time.
    Date(String),
    /// Exact DateTime in UTC for the due date.
    DateTime(UtcDateTime),
}

/// Command used to create a new Task.
#[derive(Debug)]
pub struct CreateTask {
    /// Sets the [`Task::content`] on the new [`Task`].
    pub content: String,
    /// Sets the [`Task::description`] on the new [`Task`].
    pub description: Option<String>,
    /// Sets the [`Task::project_id`] on the new [`Task`].
    pub project_id: Option<ProjectID>,
    /// Sets the [`Task::section_id`] on the new [`Task`].
    pub section_id: Option<SectionID>,
    /// Sets the [`Task::parent_id`] on the new [`Task`].
    pub parent_id: Option<TaskID>,
    /// Sets the [`Task::child_order`] on the new [`Task`].
    pub order: Option<isize>,
    /// Sets the [`Task::labels`] on the new [`Task`].
    pub labels: Vec<String>,
    /// Sets the [`Task::priority`] on the new [`Task`].
    pub priority: Option<Priority>,
    /// Sets the [`Task::due`] on the new [`Task`].
    pub due: Option<TaskDue>,
    /// If due is [TaskDue::String], this two-letter code optionally specifies the language if it's not english.
    pub due_lang: Option<String>,
    /// Sets the assignee on the new [`Task`].
    pub assignee: Option<UserID>,
}

impl Default for CreateTask {
    fn default() -> (r: CreateTask)
        ensures
            r.content@ == Seq::<char>::empty(),
            r.description is None,
            r.project_id is None,
            r.section_id is None,
            r.parent_id is None,
            r.order is None,
            r.labels@.len() == 0,
            r.priority is None,
            r.due is None,
            r.due_lang is None,
            r.assignee is None,
    {
        CreateTask {
            content: String::new(),
            description: None,
            project_id: None,
            section_id: None,
            parent_id: None,
            order: None,
            labels: Vec::new(),
            priority: None,
            due: None,
            due_lang: None,
            assignee: None,
        }
    }
}

/// Command used to update a [`Task`].
///
/// Each field is optional, so if something exists, that part of the [`Task`] will get overwritten.
#[derive(Debug, PartialEq)]
pub struct UpdateTask {
    /// Overwrites [`Task::content`] if set.
    pub content: Option<String>,
    /// Overwrites [`Task::description`] if set.
    pub description: Option<String>,
    /// Overwrites [`Task::labels`] if set.
    pub labels: Option<Vec<String>>,
    /// Overwrites [`Task::priority`] if set.
    pub priority: Option<Priority>,
    /// Overwrites [`Task::due`] if set.
    pub due: Option<TaskDue>,
    /// If due is [TaskDue::String], this two-letter code optionally specifies the language if it's not english.
    pub due_lang: Option<String>,
    /// Overwrites the assignee if set.
    pub assignee: Option<UserID>,
}

impl Default for UpdateTask {
    fn default() -> (r: UpdateTask)
        ensures
            r.content is None,
            r.description is None,
            r.labels is None,
            r.priority is None,
            r.due is None,
            r.due_lang is None,
            r.assignee is None,
    {
        UpdateTask {
            content: None,
            description: None,
            labels: None,
            priority: None,
            due: None,
            due_lang: None,
            assignee: None,
        }
    }
}

} // verus!
