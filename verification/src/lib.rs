pub mod app;
pub mod catalog;
pub mod decimal;
pub mod fields;
pub mod identity;
pub mod json;
pub mod lang;
pub mod menu;
pub mod names;
pub mod rows;
pub mod settings;
pub mod skills;
pub mod text;
pub mod workout;
