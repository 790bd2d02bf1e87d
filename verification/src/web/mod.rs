pub mod forms;
pub mod helpers;
pub mod templates;
pub mod session;
pub mod asset_specs;
pub mod tickets;
pub mod users;
