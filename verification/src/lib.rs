//! Core of a small service that bundles uploaded files into a
//! password-protected archive.
//!
//! The verified library holds every decision the service makes: password
//! validation, archive- and file-name defaulting, the per-request pipeline
//! state machine, the argument list handed to the external archiver, and the
//! mapping of each outcome to an HTTP reply. The unverified shell around it
//! only moves bytes: it reads the multipart body, touches the filesystem,
//! runs the archiver process, and sends the reply.

pub mod archive;
pub mod params;
pub mod pipeline;
pub mod response;
pub mod text;
