//! The verified core of a small task-tracking backend: the task model, the
//! repository contract with its backends' decisions, and what each service
//! answers.

pub mod guardian;
pub mod hex;
pub mod overseer;
pub mod pioneer;
pub mod startup;
