//! Request and response shapes of the Elasticsearch search and aggregation
//! APIs, with their JSON encoders and decoders.
use vstd::prelude::*;

pub mod aggregation;
pub mod bulk;
pub mod error;
pub mod json;
pub mod leaf;
pub mod query;
pub mod response;
pub mod search;
pub mod sort;
pub mod sorted_value;

verus! {

} // verus!
