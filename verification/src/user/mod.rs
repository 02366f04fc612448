pub mod form;
pub mod locale;
pub mod model;
pub mod pointer;
pub mod repository;
pub mod role_check;
pub mod rule;
pub mod service;
pub mod route;
pub mod post;
