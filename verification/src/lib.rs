use vstd::prelude::*;

pub mod cache;
pub mod failure;
pub mod home;
pub mod html;
pub mod locale;
pub mod public;
pub mod role;
pub mod shorty;
pub mod stack;
pub mod text;
pub mod timestamp;
pub mod user;
pub mod validation;

verus! {

} // verus!
