//! A resumable, chunked file-upload client: the protocol's rules and decisions,
//! verified. Network and file access are left to the caller, who performs the
//! actions that an [`session::UploadSession`] asks for and reports the outcomes.

pub mod cli;
pub mod decimal;
pub mod errors;
pub mod identity;
pub mod query;
pub mod session;
