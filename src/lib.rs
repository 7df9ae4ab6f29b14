//! A plant-care tracker's core: watering status, the message-bus wire
//! format, the background reconciliation loop and the broker repair.
use vstd::prelude::*;

pub mod archive;
pub mod backup;
pub mod care;
pub mod checker;
pub mod config;
pub mod db;
pub mod error;
pub mod photos;
pub mod plants;
pub mod publish;
pub mod repair;
pub mod service;
pub mod text;
pub mod topics;
pub mod validation;
pub mod watering;

verus! {

} // verus!
