//! Short links, QR codes, visitor analytics and the access rules around them.
//!
//! The document store, the HTTP server and token signing live outside this
//! crate; what is here is the data model, the decisions each request makes
//! and an in-memory store on which those decisions are proved to keep the
//! data model's invariants.

// Shared building blocks.
pub mod clock;
pub mod text;

// The data model.
pub mod qr_code;
pub mod role;
pub mod url;
pub mod url_visitor;
pub mod user;

// Request and response bodies.
pub mod qr_request;
pub mod url_request;
pub mod user_request;

// Access control.
pub mod auth;
pub mod authmw;
pub mod jwt;
pub mod res_owner;

// What each request decides.
pub mod listing;
pub mod qr_handlers;
pub mod url_handlers;

// The in-memory store and the properties proved over it.
pub mod laws;
pub mod store;
