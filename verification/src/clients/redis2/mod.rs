pub mod get;
pub mod set;
