pub mod process;
pub mod protocol;
