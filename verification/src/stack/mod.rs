pub mod locale;
pub mod model;
pub mod service;
pub mod route;
