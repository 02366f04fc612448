pub mod assets;
pub mod shorty;
pub mod home;
