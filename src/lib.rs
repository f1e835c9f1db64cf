use vstd::prelude::*;

pub mod request_controller;
pub mod request_url;
pub mod six_degrees_config;
pub mod tmdb;
pub mod upstream;

verus! {

} // verus!
