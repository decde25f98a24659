pub mod check;
pub mod state;
pub mod version;
