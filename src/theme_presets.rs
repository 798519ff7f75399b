pub mod cool;
pub mod dark;
pub mod warm;
