//! The record that both backends produce, and the error of the library.
use crate::timestamp::Timestamp;
use vstd::prelude::*;

verus! {

/// One resource of a listing, whichever backend produced it.
#[derive(Debug)]
pub struct Filestatus {
    /// The resource's address: the href of a remote resource, the path of a
    /// local one.
    pub path: String,
    /// When it was last modified, shown in the machine's time zone.
    pub lastmodified: Timestamp,
    /// Its length in bytes.
    pub contentlength: u64,
    /// Its owner; empty for a local resource.
    pub owner: String,
    /// Its content type; empty for a local resource.
    pub contenttype: String,
    /// Its display name: the server's, or the base name of a local entry.
    pub name: String,
}

/// The ways in which a WebDAV operation fails.
#[derive(Debug)]
pub enum DavError {
    /// The request did not get through (connection, TLS, timeout).
    Transport(String),
    /// The reply body is no multistatus document; holds the body.
    Decode(String),
    /// A `getlastmodified` value is no RFC 2822 date; holds the value.
    Timestamp(String),
    /// A request body cannot be built from the values given; holds the
    /// offending value.
    Encode(String),
}

} // verus!
