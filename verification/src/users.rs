//! User records and the localized names they own.

pub mod entities;
pub mod dtos;
pub mod names;
pub mod store;
pub mod laws;
pub mod usecases;
pub mod handlers;
