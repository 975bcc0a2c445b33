pub mod instructions;
pub mod laws;
pub mod organization;
pub mod state;
