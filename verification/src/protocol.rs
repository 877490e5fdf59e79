//! The records that travel between clients and the two services, and the
//! subjects on which they travel.

pub mod catalog;
pub mod stream;
pub mod token;
