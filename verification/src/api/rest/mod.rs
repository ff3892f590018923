pub mod comment;
pub mod project;
pub mod section;
pub mod task;
