pub mod action;
pub mod branch;
pub mod enumerate;
pub mod errors;
pub mod laws;
pub mod render;
pub mod session;
pub mod timefmt;
