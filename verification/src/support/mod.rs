pub mod outcome;
pub mod panel;
pub mod render;
pub mod workflows;
pub mod report;
pub mod update;
pub mod github;
