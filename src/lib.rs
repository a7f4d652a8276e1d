//! Listing of files over two backends, a WebDAV collection and a local
//! directory, into one record shape.
pub mod timestamp;
pub mod multistatus;
pub mod status;
pub mod remote;
pub mod propupdate;
pub mod local;
