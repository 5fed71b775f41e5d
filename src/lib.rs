pub mod report;
pub mod session;
pub mod text;
