//! Authentication core: credential store, single-use tokens, sliding sessions,
//! request classification and the façade that composes them.

pub mod classifier;
pub mod clock;
pub mod cookies;
pub mod counter;
pub mod credentials;
pub mod current_user;
pub mod entropy;
pub mod entity;
pub mod error;
pub mod handlers;
pub mod laws;
pub mod ledger;
pub mod mail;
pub mod page;
pub mod password;
pub mod service;
pub mod session;
pub mod text;
pub mod token;
pub mod visits;
