//! Configuration normalisation and emission planning for a generator of
//! network service projects (TCP echo, TCP worker pool, HTTP).
//!
//! A configuration goes in; a canonical template context, the destination
//! directory and an ordered emission plan come out. Each planned artifact is
//! rendered by the handlebars template engine. Reading configuration files
//! and writing the output tree are left to the caller.

pub mod util;

pub mod read_mode;

pub mod emit;

pub mod partial_tag;

pub mod render;

pub mod tcp_echo;

pub mod tcp_worker;

pub mod http_axum;
