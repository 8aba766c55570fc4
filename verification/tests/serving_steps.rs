use websii::listing::DirEntry;
use websii::path::CanonicalPath;
use websii::reload::RELOAD_SCRIPT;
use websii::resolve::{relative_request, resolve};
use websii::respond::{http_status, Body, Reply};
use websii::serve::{FsAnswer, FsRequest, Pending, ServeStep, INDEX_NAME};
use websii::state::{EntryKind, PathProbe, ServeError, ServingState};

fn path(parts: &[&str]) -> CanonicalPath {
    CanonicalPath::from_components(parts.iter().map(|s| s.to_string()).collect()).unwrap()
}

fn site() -> ServingState {
    ServingState::start(&PathProbe { kind: EntryKind::Directory, canonical: Ok(path(&["tmp", "site"])) })
        .unwrap()
}

fn page(text: String) -> Reply {
    Reply { status: 200, content_type: "text/html; charset=utf-8".to_string(), body: Body::Text(text) }
}

fn raw(content_type: &str, bytes: &[u8]) -> Reply {
    Reply { status: 200, content_type: content_type.to_string(), body: Body::Bytes(bytes.to_vec()) }
}

fn canonical(root: &[&str], target: Option<&[&str]>) -> FsAnswer {
    FsAnswer::Canonical { root: Some(path(root)), target: target.map(path) }
}

fn contents(bytes: &[u8]) -> FsAnswer {
    FsAnswer::Contents { bytes: Some(bytes.to_vec()) }
}

fn kind(kind: EntryKind) -> FsAnswer {
    FsAnswer::Kind { kind }
}

fn next(step: ServeStep) -> Pending {
    match step {
        ServeStep::Next(pending) => pending,
        ServeStep::Done(done) => panic!("the request ended with {:?}", done),
    }
}

fn done(step: ServeStep) -> Result<Reply, ServeError> {
    match step {
        ServeStep::Done(done) => done,
        ServeStep::Next(pending) => panic!("the request goes on with {:?}", pending),
    }
}

#[test]
fn the_request_path_loses_its_leading_separators() {
    assert_eq!(relative_request("/"), "");
    assert_eq!(relative_request("/a/b.html"), "a/b.html");
    assert_eq!(relative_request("//a"), "a");
    assert_eq!(relative_request("/../../etc/passwd"), "../../etc/passwd");
    assert_eq!(relative_request("a"), "a");
    assert_eq!(relative_request(""), "");
}

#[test]
fn resolve_gives_the_target_inside_the_root() {
    let root = Some(path(&["tmp", "site"]));
    assert_eq!(resolve(&root, &Some(path(&["tmp", "site"]))), Ok(path(&["tmp", "site"])));
    assert_eq!(
        resolve(&root, &Some(path(&["tmp", "site", "a", "b.txt"]))),
        Ok(path(&["tmp", "site", "a", "b.txt"]))
    );
}

#[test]
fn resolve_forbids_what_lies_outside_the_root() {
    let root = Some(path(&["tmp", "site"]));
    assert_eq!(resolve(&root, &Some(path(&["etc", "passwd"]))), Err(ServeError::Forbidden));
    assert_eq!(resolve(&root, &Some(path(&["tmp"]))), Err(ServeError::Forbidden));
    assert_eq!(resolve(&root, &Some(path(&["tmp", "site2", "x"]))), Err(ServeError::Forbidden));
    assert_eq!(resolve(&root, &Some(CanonicalPath::filesystem_root())), Err(ServeError::Forbidden));
}

#[test]
fn resolve_misses_what_has_no_canonical_form() {
    assert_eq!(resolve(&Some(path(&["tmp", "site"])), &None), Err(ServeError::NotFound));
}

#[test]
fn resolve_fails_where_the_root_has_no_canonical_form() {
    assert_eq!(resolve(&None, &Some(path(&["tmp", "site"]))), Err(ServeError::InternalIO));
    assert_eq!(resolve(&None, &None), Err(ServeError::InternalIO));
}

#[test]
fn a_request_is_first_resolved_against_the_root() {
    let pending = Pending::begin(&site(), "/docs/a.html");
    assert_eq!(
        pending.request(),
        FsRequest::Canonicalize { root: path(&["tmp", "site"]), relative: "docs/a.html".to_string() }
    );
    let pending = Pending::begin(&site(), "/");
    assert_eq!(
        pending.request(),
        FsRequest::Canonicalize { root: path(&["tmp", "site"]), relative: "".to_string() }
    );
}

#[test]
fn the_root_url_of_a_directory_with_an_index_file_returns_it_with_the_script() {
    let pending = Pending::begin(&site(), "/");
    let pending = next(pending.advance(canonical(&["tmp", "site"], Some(&["tmp", "site"]))));
    assert_eq!(pending.request(), FsRequest::Probe { path: path(&["tmp", "site"]) });
    let pending = next(pending.advance(kind(EntryKind::Directory)));
    assert_eq!(pending.request(), FsRequest::Probe { path: path(&["tmp", "site", "index.html"]) });
    let pending = next(pending.advance(kind(EntryKind::File)));
    assert_eq!(
        pending.request(),
        FsRequest::Resolve {
            root: path(&["tmp", "site"]),
            path: path(&["tmp", "site", "index.html"])
        }
    );
    let pending =
        next(pending.advance(canonical(&["tmp", "site"], Some(&["tmp", "site", "index.html"]))));
    assert_eq!(pending.request(), FsRequest::Read { path: path(&["tmp", "site", "index.html"]) });
    let reply = done(pending.advance(contents(b"<html><body>home</body></html>")));
    assert_eq!(reply, Ok(page(format!("<html><body>home{}</body></html>", RELOAD_SCRIPT))));
}

#[test]
fn the_root_url_of_a_directory_without_an_index_file_returns_a_listing() {
    let pending = Pending::begin(&site(), "/");
    let pending = next(pending.advance(canonical(&["tmp", "site"], Some(&["tmp", "site"]))));
    let pending = next(pending.advance(kind(EntryKind::Directory)));
    let pending = next(pending.advance(kind(EntryKind::Missing)));
    assert_eq!(pending.request(), FsRequest::List { path: path(&["tmp", "site"]) });
    let entries = vec![
        DirEntry { name: "b.txt".to_string(), is_dir: false },
        DirEntry { name: "img".to_string(), is_dir: true },
        DirEntry { name: "a.txt".to_string(), is_dir: false },
        DirEntry { name: "css".to_string(), is_dir: true },
    ];
    let reply = done(pending.advance(FsAnswer::Entries { entries: Some(entries) })).unwrap();
    assert_eq!(reply.status, 200);
    assert_eq!(reply.content_type, "text/html; charset=utf-8");
    let text = match reply.body {
        Body::Text(text) => text,
        Body::Bytes(_) => panic!("a listing is text"),
    };
    let places: Vec<usize> = ["href='/css'", "href='/img'", "href='/a.txt'", "href='/b.txt'"]
        .iter()
        .map(|link| text.find(link).unwrap())
        .collect();
    assert!(places[0] < places[1] && places[1] < places[2] && places[2] < places[3]);
    assert_eq!(text.matches("<li>").count(), 4);
    assert!(!text.contains("../"));
    assert!(text.ends_with(&format!("</ul>{}</body></html>", RELOAD_SCRIPT)));
}

#[test]
fn a_directory_named_index_html_does_not_stand_for_the_index_file() {
    let pending = Pending::begin(&site(), "/");
    let pending = next(pending.advance(canonical(&["tmp", "site"], Some(&["tmp", "site"]))));
    let pending = next(pending.advance(kind(EntryKind::Directory)));
    let pending = next(pending.advance(kind(EntryKind::Directory)));
    assert_eq!(pending.request(), FsRequest::List { path: path(&["tmp", "site"]) });
}

#[test]
fn the_listing_of_a_directory_below_the_root_links_below_the_request_path() {
    let pending = Pending::begin(&site(), "/docs");
    let pending = next(pending.advance(canonical(&["tmp", "site"], Some(&["tmp", "site", "docs"]))));
    let pending = next(pending.advance(kind(EntryKind::Directory)));
    assert_eq!(
        pending.request(),
        FsRequest::Probe { path: path(&["tmp", "site", "docs", "index.html"]) }
    );
    let pending = next(pending.advance(kind(EntryKind::Missing)));
    let entries = vec![DirEntry { name: "a.md".to_string(), is_dir: false }];
    let reply = done(pending.advance(FsAnswer::Entries { entries: Some(entries) })).unwrap();
    let text = match reply.body {
        Body::Text(text) => text,
        Body::Bytes(_) => panic!("a listing is text"),
    };
    assert!(text.contains("<h1>Index of /docs</h1>"));
    assert!(text.contains("<li><a href='/'class='dir'>../</a></li>"));
    assert!(text.contains("<li><a href='/docs/a.md'class='file'>a.md</a></li>"));
}

#[test]
fn in_direct_file_mode_the_root_url_returns_the_file_as_it_is() {
    let mut state = site();
    let probe = PathProbe {
        kind: EntryKind::File,
        canonical: Ok(path(&["tmp", "site", "readme.txt"])),
    };
    state.set_file(&probe).unwrap();
    let pending = Pending::begin(&state, "/");
    assert_eq!(pending.request(), FsRequest::Read { path: path(&["tmp", "site", "readme.txt"]) });
    let reply = done(pending.advance(contents(b"read me\n")));
    assert_eq!(reply, Ok(raw("text/plain", b"read me\n")));
}

#[test]
fn in_direct_file_mode_other_paths_are_served_from_the_directory() {
    let mut state = site();
    let probe = PathProbe {
        kind: EntryKind::File,
        canonical: Ok(path(&["tmp", "site", "readme.txt"])),
    };
    state.set_file(&probe).unwrap();
    let pending = Pending::begin(&state, "/other.html");
    assert_eq!(
        pending.request(),
        FsRequest::Canonicalize { root: path(&["tmp", "site"]), relative: "other.html".to_string() }
    );
    let pending =
        next(pending.advance(canonical(&["tmp", "site"], Some(&["tmp", "site", "other.html"]))));
    let pending = next(pending.advance(kind(EntryKind::File)));
    assert_eq!(pending.request(), FsRequest::Read { path: path(&["tmp", "site", "other.html"]) });
    let reply = done(pending.advance(contents(b"<body>other</body>")));
    assert_eq!(reply, Ok(page(format!("<body>other{}</body>", RELOAD_SCRIPT))));
}

#[test]
fn a_direct_html_file_gets_the_script() {
    let mut state = site();
    let probe = PathProbe { kind: EntryKind::File, canonical: Ok(path(&["tmp", "site", "a.html"])) };
    state.set_file(&probe).unwrap();
    let reply = done(Pending::begin(&state, "/").advance(contents(b"<p>a</p>")));
    assert_eq!(reply, Ok(page(format!("<p>a</p>{}", RELOAD_SCRIPT))));
}

#[test]
fn a_direct_file_that_cannot_be_read_is_a_server_error() {
    let mut state = site();
    let probe = PathProbe { kind: EntryKind::File, canonical: Ok(path(&["tmp", "site", "a.html"])) };
    state.set_file(&probe).unwrap();
    let reply = done(Pending::begin(&state, "/").advance(FsAnswer::Contents { bytes: None }));
    assert_eq!(reply, Err(ServeError::InternalIO));
    assert_eq!(http_status(ServeError::InternalIO), 500);
}

#[test]
fn a_path_that_climbs_out_of_the_root_is_forbidden() {
    let pending = Pending::begin(&site(), "/../../etc/passwd");
    assert_eq!(
        pending.request(),
        FsRequest::Canonicalize {
            root: path(&["tmp", "site"]),
            relative: "../../etc/passwd".to_string()
        }
    );
    let reply = done(pending.advance(canonical(&["tmp", "site"], Some(&["etc", "passwd"]))));
    assert_eq!(reply, Err(ServeError::Forbidden));
    assert_eq!(http_status(ServeError::Forbidden), 403);
}

#[test]
fn a_path_that_climbs_out_to_nothing_is_missing() {
    let pending = Pending::begin(&site(), "/../../etc/passwd");
    let reply = done(pending.advance(canonical(&["tmp", "site"], None)));
    assert_eq!(reply, Err(ServeError::NotFound));
    assert_eq!(http_status(ServeError::NotFound), 404);
}

#[test]
fn a_link_that_leads_out_of_the_root_is_forbidden() {
    let pending = Pending::begin(&site(), "/link/secret.txt");
    let reply = done(pending.advance(canonical(&["tmp", "site"], Some(&["home", "me", "secret.txt"]))));
    assert_eq!(reply, Err(ServeError::Forbidden));
}

#[test]
fn a_sibling_whose_name_begins_like_the_root_is_forbidden() {
    let pending = Pending::begin(&site(), "/../site2/a.txt");
    let reply = done(pending.advance(canonical(&["tmp", "site"], Some(&["tmp", "site2", "a.txt"]))));
    assert_eq!(reply, Err(ServeError::Forbidden));
}

#[test]
fn a_root_without_canonical_form_is_a_server_error() {
    let pending = Pending::begin(&site(), "/a");
    let answer = FsAnswer::Canonical { root: None, target: Some(path(&["tmp", "site", "a"])) };
    assert_eq!(done(pending.advance(answer)), Err(ServeError::InternalIO));
}

#[test]
fn containment_is_held_against_the_canonical_root_of_the_answer() {
    let pending = Pending::begin(&site(), "/a");
    let pending = next(pending.advance(canonical(&["real", "site"], Some(&["real", "site", "a"]))));
    assert_eq!(pending.request(), FsRequest::Probe { path: path(&["real", "site", "a"]) });
    let pending = Pending::begin(&site(), "/a");
    let reply = done(pending.advance(canonical(&["real", "site"], Some(&["tmp", "site", "a"]))));
    assert_eq!(reply, Err(ServeError::Forbidden));
}

#[test]
fn what_is_neither_file_nor_directory_is_missing() {
    for k in [EntryKind::Other, EntryKind::Missing].iter() {
        let pending = Pending::begin(&site(), "/pipe");
        let pending = next(pending.advance(canonical(&["tmp", "site"], Some(&["tmp", "site", "pipe"]))));
        assert_eq!(done(pending.advance(kind(*k))), Err(ServeError::NotFound));
    }
}

#[test]
fn a_file_that_cannot_be_read_is_a_server_error() {
    let pending = Pending::begin(&site(), "/a.txt");
    let pending = next(pending.advance(canonical(&["tmp", "site"], Some(&["tmp", "site", "a.txt"]))));
    let pending = next(pending.advance(kind(EntryKind::File)));
    assert_eq!(done(pending.advance(FsAnswer::Contents { bytes: None })), Err(ServeError::InternalIO));
}

fn at_the_index_file() -> Pending {
    let pending = Pending::begin(&site(), "/");
    let pending = next(pending.advance(canonical(&["tmp", "site"], Some(&["tmp", "site"]))));
    let pending = next(pending.advance(kind(EntryKind::Directory)));
    next(pending.advance(kind(EntryKind::File)))
}

#[test]
fn an_index_file_that_cannot_be_read_is_a_server_error() {
    let pending = at_the_index_file();
    let pending =
        next(pending.advance(canonical(&["tmp", "site"], Some(&["tmp", "site", "index.html"]))));
    assert_eq!(done(pending.advance(FsAnswer::Contents { bytes: None })), Err(ServeError::InternalIO));
}

#[test]
fn an_index_file_that_is_a_link_out_of_the_root_is_forbidden() {
    let reply = done(at_the_index_file().advance(canonical(&["tmp", "site"], Some(&["etc", "passwd"]))));
    assert_eq!(reply, Err(ServeError::Forbidden));
}

#[test]
fn an_index_file_that_is_a_broken_link_is_missing() {
    let reply = done(at_the_index_file().advance(canonical(&["tmp", "site"], None)));
    assert_eq!(reply, Err(ServeError::NotFound));
}

#[test]
fn an_index_file_that_is_a_link_inside_the_root_is_read_where_it_lies() {
    let pending = next(
        at_the_index_file().advance(canonical(&["tmp", "site"], Some(&["tmp", "site", "real", "home.html"]))),
    );
    assert_eq!(
        pending.request(),
        FsRequest::Read { path: path(&["tmp", "site", "real", "home.html"]) }
    );
    let reply = done(pending.advance(contents(b"<body>x</body>")));
    assert_eq!(reply, Ok(page(format!("<body>x{}</body>", RELOAD_SCRIPT))));
}

#[test]
fn a_listing_for_a_path_that_ends_in_separators_links_as_without_them() {
    for request in ["/a/b", "/a/b/", "/a/b///"].iter() {
        let pending = Pending::begin(&site(), request);
        let pending =
            next(pending.advance(canonical(&["tmp", "site"], Some(&["tmp", "site", "a", "b"]))));
        let pending = next(pending.advance(kind(EntryKind::Directory)));
        let pending = next(pending.advance(kind(EntryKind::Missing)));
        let entries = vec![DirEntry { name: "n".to_string(), is_dir: false }];
        let reply = done(pending.advance(FsAnswer::Entries { entries: Some(entries) })).unwrap();
        let text = match reply.body {
            Body::Text(text) => text,
            Body::Bytes(_) => panic!("a listing is text"),
        };
        assert!(text.contains("<h1>Index of /a/b</h1>"), "{}", request);
        assert!(text.contains("<li><a href='/a'class='dir'>../</a></li>"), "{}", request);
        assert!(text.contains("<li><a href='/a/b/n'class='file'>n</a></li>"), "{}", request);
    }
}

#[test]
fn a_directory_that_cannot_be_listed_is_a_server_error() {
    let pending = Pending::begin(&site(), "/");
    let pending = next(pending.advance(canonical(&["tmp", "site"], Some(&["tmp", "site"]))));
    let pending = next(pending.advance(kind(EntryKind::Directory)));
    let pending = next(pending.advance(kind(EntryKind::Missing)));
    assert_eq!(done(pending.advance(FsAnswer::Entries { entries: None })), Err(ServeError::InternalIO));
}

#[test]
fn an_answer_of_the_wrong_kind_is_a_server_error() {
    let pending = Pending::begin(&site(), "/a");
    assert_eq!(done(pending.advance(kind(EntryKind::File))), Err(ServeError::InternalIO));
    let pending = Pending::begin(&site(), "/a");
    assert_eq!(done(pending.advance(contents(b"x"))), Err(ServeError::InternalIO));
    let pending = Pending::begin(&site(), "/a");
    let pending = next(pending.advance(canonical(&["tmp", "site"], Some(&["tmp", "site", "a"]))));
    assert_eq!(done(pending.advance(contents(b"x"))), Err(ServeError::InternalIO));
}

#[test]
fn the_index_file_is_served_as_html_whatever_its_bytes() {
    let pending =
        next(at_the_index_file().advance(canonical(&["tmp", "site"], Some(&["tmp", "site", "index.html"]))));
    let reply = done(pending.advance(contents(&[b'x', 0xff])));
    assert_eq!(reply, Ok(page(format!("x\u{fffd}{}", RELOAD_SCRIPT))));
    assert_eq!(INDEX_NAME, "index.html");
}

#[test]
fn every_step_works_inside_the_root() {
    let pending = Pending::begin(&site(), "/a/b");
    pending.containment_holds();
    let pending = next(pending.advance(canonical(&["tmp", "site"], Some(&["tmp", "site", "a", "b"]))));
    pending.containment_holds();
    match pending.request() {
        FsRequest::Probe { path: asked } => assert!(asked.is_within(&path(&["tmp", "site"]))),
        other => panic!("unexpected request {:?}", other),
    }
}
