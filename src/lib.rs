pub mod credential;
pub mod validation;
pub mod flow;
