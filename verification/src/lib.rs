//! Data model and decisions of a Todoist command-line client: the REST API's
//! projects, tasks, comments and sections, the orderings the client lists them
//! in, how due dates and priorities are shown, and the steps that move a task
//! into a section.
use vstd::prelude::*;

pub mod api;
pub mod order;
pub mod paint;
pub mod tasks;
pub mod text;

verus! {

/// An arbitrary JSON value, carried through the library untouched.
#[verifier::external_type_specification]
#[verifier::external_body]
pub struct ExJsonValue(serde_json::Value);

} // verus!
