//! Types shared by every part of the service.

pub mod result;
pub mod locale;
pub mod decimal;
pub mod hash;
pub mod error;
pub mod response;
pub mod password;
pub mod filtering;
