pub mod rule;
pub mod form;
pub mod model;
pub mod repository;
pub mod service;
pub mod access;
pub mod locale;
pub mod route;
