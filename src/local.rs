//! The local backend: a directory's entries as records.
use crate::status::Filestatus;
use crate::timestamp::Timestamp;
use vstd::prelude::*;

verus! {

/// A client of one local directory.
#[derive(Debug)]
pub struct Native {
    path: String,
}

/// What the file system told of one directory entry.
#[derive(Debug)]
pub struct LocalEntry {
    /// The entry's path: the directory's path joined with its name.
    pub path: String,
    /// When it was last modified.
    pub modified: Timestamp,
    /// Its length in bytes.
    pub len: u64,
    /// Its base name.
    pub name: String,
}

/// The entries of `es` whose metadata could be read, in order.
pub open spec fn readable(es: Seq<Option<LocalEntry>>) -> Seq<LocalEntry>
    decreases es.len(),
{
    if es.len() == 0 {
        Seq::empty()
    } else {
        match es.last() {
            Some(e) => readable(es.drop_last()).push(e),
            None => readable(es.drop_last()),
        }
    }
}

/// `f` is the record of local entry `e`: no owner, no content type.
pub open spec fn local_projects(e: LocalEntry, f: Filestatus) -> bool {
    &&& f.path@ == e.path@
    &&& f.lastmodified == e.modified
    &&& f.contentlength == e.len
    &&& f.owner@.len() == 0
    &&& f.contenttype@.len() == 0
    &&& f.name@ == e.name@
}

impl Native {
    pub closed spec fn spec_path(&self) -> Seq<char> {
        self.path@
    }

    /// A client of the directory at `path`.
    pub fn new(path: &str) -> (r: Native)
        ensures
            r.spec_path() == path@,
    {
        Native { path: path.to_string() }
    }

    /// The directory's path.
    pub fn path(&self) -> (r: &str)
        ensures
            r@ == self.spec_path(),
    {
        self.path.as_str()
    }

    /// The listing of the directory, given what reading it gave: `Err` where
    /// the directory could not be opened, else one item per entry, `None`
    /// where the entry's metadata could not be read. Best effort: an
    /// unopenable directory lists as empty, an unreadable entry is left out,
    /// and the others keep their order.
    pub fn list(self, listing: Result<Vec<Option<LocalEntry>>, String>) -> (r: Vec<Filestatus>)
        ensures
            listing is Err ==> r@.len() == 0,
            listing matches Ok(es) ==> {
                &&& r@.len() == readable(es@).len()
                &&& forall|i: int|
                    0 <= i < r@.len() ==> local_projects(#[trigger] readable(es@)[i], r@[i])
            },
    {
        let mut out: Vec<Filestatus> = Vec::new();
        match listing {
            Ok(es) => {
                let n = es.len();
                let mut i: usize = 0;
                while i < n
                    invariant
                        0 <= i <= n,
                        n == es@.len(),
                        out@.len() == readable(es@.take(i as int)).len(),
                        forall|j: int|
                            0 <= j < out@.len() ==> local_projects(
                                #[trigger] readable(es@.take(i as int))[j],
                                out@[j],
                            ),
                    decreases n - i,
                {
                    assert(es@.take(i + 1).drop_last() =~= es@.take(i as int));
                    match &es[i] {
                        Some(e) => {
                            let f = Filestatus {
                                path: e.path.clone(),
                                lastmodified: e.modified,
                                contentlength: e.len,
                                owner: String::new(),
                                contenttype: String::new(),
                                name: e.name.clone(),
                            };
                            out.push(f);
                        },
                        None => {},
                    }
                    i = i + 1;
                }
                assert(es@.take(n as int) =~= es@);
            },
            Err(_) => {},
        }
        out
    }
}

} // verus!
