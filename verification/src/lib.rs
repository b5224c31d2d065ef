pub mod base;
pub mod dao;
pub mod forms;
pub mod json;
pub mod record;
pub mod renderer;
