use vstd::prelude::*;

pub mod text;
pub mod object_ids;
pub mod membership;
pub mod membership_validation;
pub mod health;
pub mod policy;
pub mod errors;
pub mod retention;
pub mod scheduling;
pub mod discovery;
pub mod cli;
pub mod publish;
pub mod credentials;
pub mod runs;

verus! {


} // verus!
