pub mod extensions;
pub mod globals;
pub mod prerequisites;
