//! The logic behind three web-application templates: a component with a title,
//! a route table with the page each route shows, and a remote call with the
//! client view of its outcome. Each function computes plain values that a UI
//! layer renders; its contract states them exactly.

use vstd::prelude::*;

pub mod component;
pub mod decimal;
pub mod pages;
pub mod route;
pub mod server;
pub mod text;

verus! {

} // verus!
