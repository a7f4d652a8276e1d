//! The WebDAV client: the requests it sends and what it makes of the replies.
use crate::multistatus::{project, projects_all, all_dates_read, first_unread, date_of, Multistatus};
use crate::propupdate::{all_names_valid, is_prop_name, property_update, update_doc};
use crate::status::{DavError, Filestatus};
use vstd::utf8::encode_utf8;
use vstd::prelude::*;
use vstd::string::StringExecFns;

verus! {

/// The credentials that a client authenticates with.
#[derive(Debug)]
pub struct Account {
    pub username: String,
    pub password: String,
}

/// A client of one WebDAV collection.
#[derive(Debug)]
pub struct Webdav {
    path: String,
    account: Account,
}

/// The HTTP methods that the client uses.
#[derive(Clone, Copy, Debug, PartialEq, Eq, Structural)]
pub enum Method {
    Propfind,
    Put,
    Proppatch,
}

/// One HTTP request, authenticated with basic authentication.
#[derive(Debug)]
pub struct Request {
    pub method: Method,
    pub url: String,
    pub username: String,
    pub password: String,
    /// The `Content-Type` header, where one is sent.
    pub content_type: Option<String>,
    pub body: Vec<u8>,
}

/// What came back from a PROPFIND request.
#[derive(Debug)]
pub enum Reply {
    /// The request did not get through; holds the reason.
    Transport(String),
    /// The body is no multistatus document; holds the body.
    Undecodable(String),
    /// The body, decoded.
    Decoded(Multistatus),
}

impl Webdav {
    pub closed spec fn spec_path(&self) -> Seq<char> {
        self.path@
    }

    pub closed spec fn spec_username(&self) -> Seq<char> {
        self.account.username@
    }

    pub closed spec fn spec_password(&self) -> Seq<char> {
        self.account.password@
    }

    /// A client of the collection at `path`, which is not checked further:
    /// a malformed address fails when a request is sent.
    pub fn new(path: &str, account: Account) -> (r: Webdav)
        requires
            path@.len() > 0,
        ensures
            r.spec_path() == path@,
            r.spec_username() == account.username@,
            r.spec_password() == account.password@,
    {
        Webdav { path: path.to_string(), account }
    }

    /// The collection's address.
    pub fn path(&self) -> (r: &str)
        ensures
            r@ == self.spec_path(),
    {
        self.path.as_str()
    }

    /// `Request` with the client's address followed by `suffix` and its
    /// credentials.
    fn request(&self, method: Method, suffix: &str, content_type: Option<String>, body: Vec<u8>) -> (r: Request)
        ensures
            r.method == method,
            r.url@ == self.spec_path() + suffix@,
            r.username@ == self.spec_username(),
            r.password@ == self.spec_password(),
            r.content_type == content_type,
            r.body@ == body@,
    {
        let url = self.path.clone().concat(suffix);
        Request {
            method,
            url,
            username: self.account.username.clone(),
            password: self.account.password.clone(),
            content_type,
            body,
        }
    }

    /// The PROPFIND request that lists the collection: no body, no content type.
    pub fn list_request(&self) -> (r: Request)
        ensures
            r.method == Method::Propfind,
            r.url@ == self.spec_path(),
            r.username@ == self.spec_username(),
            r.password@ == self.spec_password(),
            r.content_type is None,
            r.body@.len() == 0,
    {
        let r = self.request(Method::Propfind, "", None, Vec::new());
        proof {
            reveal_strlit("");
        }
        assert(r.url@ =~= self.spec_path());
        r
    }

    /// The listing that a PROPFIND reply gives: a transport failure or an
    /// undecodable body is passed on as such; a decoded body is projected,
    /// all or nothing, into one record per resource in the server's order.
    pub fn list(&self, reply: Reply) -> (r: Result<Vec<Filestatus>, DavError>)
        ensures
            reply matches Reply::Transport(m) ==> r is Err && r->Err_0 is Transport
                && r->Err_0->Transport_0@ == m@,
            reply matches Reply::Undecodable(b) ==> r is Err && r->Err_0 is Decode
                && r->Err_0->Decode_0@ == b@,
            reply matches Reply::Decoded(ms) ==> {
                &&& r is Ok <==> all_dates_read(ms.response@)
                &&& r matches Ok(fs) ==> projects_all(ms.response@, fs@)
                &&& r is Err ==> exists|i: int|
                    first_unread(ms.response@, i) && r->Err_0 is Timestamp
                        && r->Err_0->Timestamp_0@ == date_of(ms.response@[i])
            },
    {
        match reply {
            Reply::Transport(m) => Err(DavError::Transport(m)),
            Reply::Undecodable(b) => Err(DavError::Decode(b)),
            Reply::Decoded(ms) => project(&ms),
        }
    }

    /// The PUT request that writes `content` to the resource `file_name`
    /// of the collection.
    pub fn write(&self, file_name: &str, content: Vec<u8>) -> (r: Request)
        ensures
            r.method == Method::Put,
            r.url@ == self.spec_path() + file_name@,
            r.username@ == self.spec_username(),
            r.password@ == self.spec_password(),
            r.content_type is None,
            r.body@ == content@,
    {
        self.request(Method::Put, file_name, None, content)
    }

    /// The PROPPATCH request to the collection that sets each property of
    /// `updates` to its value, as a `text/xml` document. Fails with `Encode`
    /// where a property name cannot be written as an element name.
    pub fn pro_patch(&self, updates: &Vec<(String, String)>) -> (r: Result<Request, DavError>)
        ensures
            r is Ok <==> all_names_valid(updates@),
            r matches Ok(q) ==> {
                &&& q.method == Method::Proppatch
                &&& q.url@ == self.spec_path()
                &&& q.username@ == self.spec_username()
                &&& q.password@ == self.spec_password()
                &&& q.content_type matches Some(t) && t@ == "text/xml"@
                &&& q.body@ == encode_utf8(update_doc(updates@))
            },
            r is Err ==> r->Err_0 is Encode && exists|i: int|
                0 <= i < updates@.len() && !is_prop_name(updates@[i].0@) && r->Err_0->Encode_0@
                    == (#[trigger] updates@[i]).0@,
    {
        match property_update(updates) {
            Ok(doc) => {
                let body = vstd::slice::slice_to_vec(doc.as_str().as_bytes());
                let q = self.request(Method::Proppatch, "", Some(String::from_str("text/xml")), body);
                proof {
                    reveal_strlit("");
                }
                assert(q.url@ =~= self.spec_path());
                Ok(q)
            },
            Err(e) => Err(e),
        }
    }
}

} // verus!
