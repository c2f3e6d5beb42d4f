//! Orchestration core of a discussion-forum front end: session lifecycle,
//! the OAuth login flow, declarative page composition over an upstream
//! content API, and the error-signal protocol that reports failures.

pub mod article;
pub mod comment;
pub mod compose;
pub mod identity;
pub mod index;
pub mod oauth;
pub mod outside;
pub mod page;
pub mod record;
pub mod session;
pub mod signal;
pub mod store;
pub mod subspace;
pub mod user;
