//! The shape of a PROPFIND reply, and its projection into records.
use crate::status::{DavError, Filestatus};
use crate::timestamp::{rfc2822_of, Timestamp};
use vstd::prelude::*;

verus! {

/// The properties of one resource.
#[derive(Debug)]
pub struct Prop {
    pub getlastmodified: String,
    pub getcontentlength: u64,
    pub owner: String,
    pub getcontenttype: String,
    pub displayname: String,
}

/// A property set with its status line, which is carried and not read.
#[derive(Debug)]
pub struct Propstat {
    pub prop: Prop,
    pub status: String,
}

/// One resource of a reply.
#[derive(Debug)]
pub struct Response {
    pub href: String,
    pub propstat: Propstat,
}

/// A whole reply: its resources, in the server's order.
#[derive(Debug)]
pub struct Multistatus {
    pub response: Vec<Response>,
}

/// The date text of a response.
pub open spec fn date_of(r: Response) -> Seq<char> {
    r.propstat.prop.getlastmodified@
}

/// Every response of `rs` carries a readable date.
pub open spec fn all_dates_read(rs: Seq<Response>) -> bool {
    forall|i: int| 0 <= i < rs.len() ==> (#[trigger] rfc2822_of(date_of(rs[i]))) is Some
}

/// Response `i` carries the first date of `rs` that cannot be read.
pub open spec fn first_unread(rs: Seq<Response>, i: int) -> bool {
    &&& 0 <= i < rs.len()
    &&& rfc2822_of(date_of(rs[i])) is None
    &&& forall|j: int| 0 <= j < i ==> (#[trigger] rfc2822_of(date_of(rs[j]))) is Some
}

/// `f` is the record of response `r`: each field taken over, and the instant
/// the one its date names.
pub open spec fn projects(r: Response, f: Filestatus) -> bool {
    &&& f.path@ == r.href@
    &&& rfc2822_of(date_of(r)) matches Some(p) && f.lastmodified.secs == p.0
        && f.lastmodified.nanos == p.1
    &&& f.contentlength == r.propstat.prop.getcontentlength
    &&& f.owner@ == r.propstat.prop.owner@
    &&& f.contenttype@ == r.propstat.prop.getcontenttype@
    &&& f.name@ == r.propstat.prop.displayname@
}

/// The records of `rs`, one for each response and in the same order.
pub open spec fn projects_all(rs: Seq<Response>, fs: Seq<Filestatus>) -> bool {
    &&& fs.len() == rs.len()
    &&& forall|i: int| 0 <= i < rs.len() ==> projects(#[trigger] rs[i], fs[i])
}

/// Projects every response of a reply into a record, in order. All or
/// nothing: where a date cannot be read the whole reply is refused, naming
/// the first such date.
pub fn project(ms: &Multistatus) -> (r: Result<Vec<Filestatus>, DavError>)
    ensures
        r is Ok <==> all_dates_read(ms.response@),
        r matches Ok(fs) ==> projects_all(ms.response@, fs@),
        r is Err ==> exists|i: int|
            first_unread(ms.response@, i) && r->Err_0 is Timestamp && r->Err_0->Timestamp_0@
                == date_of(ms.response@[i]),
{
    let rs = &ms.response;
    let n = rs.len();
    let mut out: Vec<Filestatus> = Vec::new();
    let mut i: usize = 0;
    while i < n
        invariant
            0 <= i <= n,
            n == rs@.len(),
            rs@ == ms.response@,
            out@.len() == i,
            forall|j: int| 0 <= j < i ==> (#[trigger] rfc2822_of(date_of(rs@[j]))) is Some,
            forall|j: int| 0 <= j < i ==> projects(#[trigger] rs@[j], out@[j]),
        decreases n - i,
    {
        let resp = &rs[i];
        match Timestamp::from_rfc2822_local(resp.propstat.prop.getlastmodified.as_str()) {
            Some(ts) => {
                let f = Filestatus {
                    path: resp.href.clone(),
                    lastmodified: ts,
                    contentlength: resp.propstat.prop.getcontentlength,
                    owner: resp.propstat.prop.owner.clone(),
                    contenttype: resp.propstat.prop.getcontenttype.clone(),
                    name: resp.propstat.prop.displayname.clone(),
                };
                out.push(f);
            },
            None => {
                let t = resp.propstat.prop.getlastmodified.clone();
                assert(first_unread(rs@, i as int));
                assert(!all_dates_read(rs@));
                return Err(DavError::Timestamp(t));
            },
        }
        i = i + 1;
    }
    Ok(out)
}

} // verus!
