//! Request dispatch for a small demonstration web service.
//!
//! The service answers a fixed set of routes with fixed or nearly fixed
//! responses. This crate holds what it decides: which handler a request goes
//! to ([`router`]), what each handler answers ([`handlers`]), and the table
//! that ties the two together ([`table`]). Listening on a socket, speaking
//! HTTP and waiting for the interrupt are left to the program around it,
//! which hands each request over as a [`request::Request`] and sends back the
//! [`response::Response`] it gets.

pub mod codec;
pub mod handlers;
pub mod method;
pub mod request;
pub mod response;
pub mod router;
pub mod table;
pub mod text;
