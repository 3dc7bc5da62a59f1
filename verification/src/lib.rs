//! Payload-size enforcement for HTTP exchanges.
//!
//! The filter sits in the path of HTTP exchanges and cuts short those whose
//! request or response body is larger than the configuration allows. It
//! looks at two things only: the length that the headers declare, which can
//! settle the matter before any body arrives, and the sizes of the body
//! chunks as they pass, which settle it where the declaration is missing or
//! wrong. It holds no body bytes and sends nothing itself: it answers each
//! event with a [`filter::http_context::Decision`], and the caller carries
//! the decision out.
//!
//! - [`guard`]: the counting and comparing for one direction of one exchange.
//! - [`config`]: the configuration snapshot, read from and written as JSON.
//! - [`filter`]: the lifecycle owner, which holds the current snapshot, and
//!   the exchange filter, which applies the snapshot that was current when
//!   its exchange began; and what holds of every exchange.
//! - [`decimal`]: decimal numbers as text.
//! - [`log`]: log lines that say which context speaks.
//! - [`json`]: what is taken on trust of the JSON reader.

pub mod config;
pub mod decimal;
pub mod filter;
pub mod guard;
pub mod json;
pub mod log;
