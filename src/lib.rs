//! A video-game catalog: records, their validation, the service operations of
//! the catalog over a collection of records, and the statistics derived from it.

pub mod model;
pub mod outside;
pub mod service;
pub mod stats;
