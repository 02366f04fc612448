pub mod context;
pub mod navigation;
