//! User records with localized names.
//!
//! A user owns one name for each locale, stored as one row for each pair of
//! user and locale. This library holds the rules that move between those
//! rows and the mapping from locale to name that callers see, and the
//! use cases on users. It never talks to the store itself: a use case says
//! which statements to run and goes on with the answer, so that the caller
//! keeps the connection and the transaction.
//!
//! * [`users::names`] folds rows into names, groups the rows of one query by
//!   user, and plans the replacement of a user's names.
//! * [`users::usecases`] lists, reads, creates, updates and deletes users.
//! * [`users::store`] has the statements, the answers, and a model of the
//!   tables; [`users::laws`] proves what the use cases do to that model.
//! * [`users::handlers`] turns an outcome into the answer for the caller.
//! * [`shared`] and [`config`] hold what the rest builds on; [`products`]
//!   finds a product among the ones on offer.

pub mod config;
pub mod products;
pub mod shared;
pub mod users;
