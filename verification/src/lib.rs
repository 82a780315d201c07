use vstd::prelude::*;

pub mod components;
pub mod db;
pub mod domain;
pub mod error;
pub mod platform;
pub mod routes;
pub mod text;
pub mod views;

verus! {
} // verus!
