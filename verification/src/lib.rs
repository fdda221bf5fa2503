//! Flight carbon-footprint estimates: validated itinerary collection, the
//! request payload, and the classification of the estimation service's answers.

pub mod field;
pub mod itinerary;
pub mod json;
pub mod outcome;
pub mod request;
pub mod response;
pub mod text;
