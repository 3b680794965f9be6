pub mod app;
pub mod field;
pub mod git;
pub mod gitkeys;
pub mod gitview;
pub mod input;
pub mod keys;
pub mod laws;
pub mod layout;
pub mod model;
pub mod replies;
pub mod text;
pub mod update;
