//! The two operations of the service and the shapes of their answers.

pub mod session_controller;
pub mod web_controller;
