use davlist::multistatus::{Multistatus, Prop, Propstat, Response};
use davlist::remote::{Account, Method, Reply, Webdav};
use davlist::status::DavError;
use davlist::timestamp::Timestamp;

fn account() -> Account {
    Account { username: "alice".to_string(), password: "SECRET-REDACTED".to_string() }
}

fn dav() -> Webdav {
    Webdav::new("https://dav.example.org/dav/schedule/", account())
}

fn response(href: &str, date: &str, len: u64, owner: &str, ty: &str, name: &str) -> Response {
    Response {
        href: href.to_string(),
        propstat: Propstat {
            prop: Prop {
                getlastmodified: date.to_string(),
                getcontentlength: len,
                owner: owner.to_string(),
                getcontenttype: ty.to_string(),
                displayname: name.to_string(),
            },
            status: "HTTP/1.1 200 OK".to_string(),
        },
    }
}

#[test]
fn pro_patch() {
    let updates = vec![("Author".to_string(), "Douglas Groncki".to_string())];
    let req = dav().pro_patch(&updates);
    assert!(req.is_ok(), "pro_patch works  incorrect!");
    let req = req.unwrap();
    assert_eq!(req.method, Method::Proppatch);
    assert_eq!(req.url, "https://dav.example.org/dav/schedule/");
    assert_eq!(req.content_type.as_deref(), Some("text/xml"));
    let body = String::from_utf8(req.body).unwrap();
    assert_eq!(
        body,
        "<?xml version=\"1.0\"?><d:propertyupdate xmlns:d=\"DAV:\" xmlns:o=\"urn:schemas-microsoft-com:office:office\"><d:set><d:prop><o:Author>Douglas Groncki</o:Author></d:prop></d:set></d:propertyupdate>"
    );
}

#[test]
fn pro_patch_escapes_values() {
    let updates = vec![
        ("a".to_string(), "x<y & 'z'".to_string()),
        ("b-2".to_string(), "\"q\">".to_string()),
    ];
    let req = dav().pro_patch(&updates).unwrap();
    let body = String::from_utf8(req.body).unwrap();
    assert!(body.contains("<o:a>x&lt;y &amp; &apos;z&apos;</o:a><o:b-2>&quot;q&quot;&gt;</o:b-2>"));
}

#[test]
fn pro_patch_refuses_bad_name() {
    let updates = vec![
        ("ok".to_string(), "1".to_string()),
        ("not a name".to_string(), "2".to_string()),
    ];
    match dav().pro_patch(&updates) {
        Err(DavError::Encode(n)) => assert_eq!(n, "not a name"),
        other => panic!("unexpected {:?}", other),
    }
    let empty = vec![("".to_string(), "v".to_string())];
    assert!(matches!(dav().pro_patch(&empty), Err(DavError::Encode(_))));
}

#[test]
fn list_request_is_propfind() {
    let req = dav().list_request();
    assert_eq!(req.method, Method::Propfind);
    assert_eq!(req.url, "https://dav.example.org/dav/schedule/");
    assert_eq!(req.username, "alice");
    assert_eq!(req.password, "SECRET-REDACTED");
    assert!(req.content_type.is_none());
    assert!(req.body.is_empty());
}

#[test]
fn write_puts_under_collection() {
    let req = dav().write("schedule.org", b"* TODO".to_vec());
    assert_eq!(req.method, Method::Put);
    assert_eq!(req.url, "https://dav.example.org/dav/schedule/schedule.org");
    assert_eq!(req.body, b"* TODO".to_vec());
}

#[test]
fn list_one_response() {
    let ms = Multistatus {
        response: vec![response(
            "/dav/schedule/schedule.org",
            "Mon, 01 Jan 2024 10:00:00 GMT",
            42,
            "alice",
            "text/plain",
            "schedule.org",
        )],
    };
    let files = dav().list(Reply::Decoded(ms)).unwrap();
    assert_eq!(files.len(), 1);
    let f = &files[0];
    assert_eq!(f.path, "/dav/schedule/schedule.org");
    assert_eq!(f.lastmodified.secs, 1704103200);
    assert_eq!(f.lastmodified.nanos, 0);
    assert_eq!(f.contentlength, 42);
    assert_eq!(f.owner, "alice");
    assert_eq!(f.contenttype, "text/plain");
    assert_eq!(f.name, "schedule.org");
}

#[test]
fn list_keeps_count_and_order() {
    let ms = Multistatus {
        response: vec![
            response("/c/", "Tue, 15 Nov 1994 08:12:31 GMT", 0, "", "", "c"),
            response("/a", "Mon, 01 Jan 2024 10:00:00 +0100", 7, "bob", "text/x", "a"),
            response("/b", "Mon, 01 Jan 2024 10:00:00 GMT", 9, "eve", "text/y", "b"),
        ],
    };
    let files = dav().list(Reply::Decoded(ms)).unwrap();
    let paths: Vec<&str> = files.iter().map(|f| f.path.as_str()).collect();
    assert_eq!(paths, vec!["/c/", "/a", "/b"]);
    assert_eq!(files[1].lastmodified.secs, 1704103200 - 3600);
    assert_eq!(files[1].contentlength, 7);
}

#[test]
fn list_empty_multistatus() {
    let files = dav().list(Reply::Decoded(Multistatus { response: vec![] })).unwrap();
    assert!(files.is_empty());
}

#[test]
fn malformed_date_fails_whole_listing() {
    let ms = Multistatus {
        response: vec![
            response("/a", "Mon, 01 Jan 2024 10:00:00 GMT", 1, "", "", "a"),
            response("/b", "not-a-date", 2, "", "", "b"),
            response("/c", "also bad", 3, "", "", "c"),
        ],
    };
    match dav().list(Reply::Decoded(ms)) {
        Err(DavError::Timestamp(v)) => assert_eq!(v, "not-a-date"),
        other => panic!("unexpected {:?}", other),
    }
}

#[test]
fn undecodable_body_is_decode_error() {
    let r = dav().list(Reply::Undecodable("<multistatus><resp".to_string()));
    match r {
        Err(DavError::Decode(b)) => assert_eq!(b, "<multistatus><resp"),
        other => panic!("unexpected {:?}", other),
    }
}

#[test]
fn transport_failure_is_passed_on() {
    let r = dav().list(Reply::Transport("connection refused".to_string()));
    assert!(matches!(r, Err(DavError::Transport(m)) if m == "connection refused"));
}

#[test]
fn rfc2822_round_trip() {
    let t = Timestamp::from_rfc2822_local("Tue, 15 Nov 1994 08:12:31 GMT").unwrap();
    assert_eq!(t.secs, 784887151);
    let utc = chrono::DateTime::from_timestamp(t.secs, t.nanos).unwrap();
    assert_eq!(utc.to_rfc2822(), "Tue, 15 Nov 1994 08:12:31 +0000");
    assert!(Timestamp::from_rfc2822_local("not-a-date").is_none());
}

#[test]
fn webdav_keeps_path() {
    assert_eq!(dav().path(), "https://dav.example.org/dav/schedule/");
}
