use vstd::prelude::*;

pub mod receiver;
pub mod rules;
pub mod sla;
pub mod survey;
pub mod agent;
pub mod changes;
pub mod chat;
pub mod ids;
pub mod mail;
pub mod marketing;
pub mod numbers;
pub mod text;
pub mod web;

verus! {

} // verus!
