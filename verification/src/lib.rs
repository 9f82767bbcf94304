//! A session client for remote tracking systems and the filters over what it
//! fetches.
//!
//! The client keeps the cookies of one session ([`cookie`], [`session`]),
//! builds the requests that log in and fetch ([`http`]), and decodes the JSON
//! arrays that come back into merge requests, issues and requirements
//! ([`json`], [`decode`], [`item`]). Sending a request is left to the caller:
//! the library says which request to send and what a reply means. The
//! filters ([`filter`]) derive what is to be shown from a fetched collection
//! by a text query and by a range of days ([`date`]), and never change the
//! collection itself.

pub mod cookie;
pub mod date;
pub mod decode;
pub mod filter;
pub mod http;
pub mod item;
pub mod json;
pub mod session;
pub mod text;
