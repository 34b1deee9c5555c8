use vstd::prelude::*;

pub mod archive;
pub mod config;
pub mod decimal;
pub mod download;
pub mod elevation;
pub mod hosts;
pub mod json;
pub mod logger;
pub mod mumu_info;
pub mod optimize;
pub mod order;
pub mod packages;
pub mod paths;
pub mod text;
pub mod vdi;

verus! {

} // verus!
