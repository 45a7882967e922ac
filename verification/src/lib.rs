use vstd::prelude::*;

pub mod command;
pub mod database;
pub mod dlsite;
pub mod menu;
pub mod services;
pub mod text;
pub mod window;

verus! {

} // verus!
