//! Client-side logic of the SoulBook knowledge-base front end: the requests
//! it sends to the documentation server, how it reads and completes the
//! server's replies, and the decisions its pages make. Every function here
//! is verified against its contract; the user interface and the network
//! live in the application crate.
//!
//! - [`text`]: decimal numbers, whitespace trimming, prefixes and substrings.
//! - [`uri`]: percent-encoding of URI components.
//! - [`json`]: a JSON model and the shapes of the server's replies.
//! - [`endpoints`]: the method and path of every request, and composed bodies.
//! - [`documents`], [`spaces`], [`files`], [`tags`], [`account`],
//!   [`change_requests`], [`records`]: the server's records and their rules.
//! - [`pages`]: what the pages select, show and send.
#[allow(unused_imports)]
use vstd::prelude::*;

pub mod account;
pub mod change_requests;
pub mod documents;
pub mod endpoints;
pub mod files;
pub mod json;
pub mod pages;
pub mod records;
pub mod spaces;
pub mod tags;
pub mod text;
pub mod uri;
