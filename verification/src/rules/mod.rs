pub mod fields;
pub mod patterns;
pub mod model;
pub mod engine;
pub mod dictionaries;
pub mod assets;
pub mod helpdesk;
