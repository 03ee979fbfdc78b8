use static_server::routes::fallback::{decide, handler, locate, Action, Fallback, Seen, Target};
use static_server::response::{Response, Status};
use static_server::state::{Args, State, DEFAULT_PORT};

fn serving(directory: &str) -> State {
    State { args: Args { port: DEFAULT_PORT, directory: directory.to_string() } }
}

fn respond(action: Action) -> Response {
    match action {
        Action::Respond(response) => response,
        other => panic!("expected a response, got {:?}", other),
    }
}

#[test]
fn default_port_is_8080() {
    assert_eq!(DEFAULT_PORT, 8080);
}

#[test]
fn existing_html_file_is_served_as_html() {
    let state = serving("/srv");
    let first = handler(&state, Fallback::Plain, "/about.html", Seen::Nothing);
    assert_eq!(first, Action::Read { path: "/srv/about.html".to_string() });

    let contents = b"<h1>About</h1>".to_vec();
    let response =
        respond(handler(&state, Fallback::Plain, "/about.html", Seen::File(Some(contents.clone()))));
    assert_eq!(response.status, Status::Success);
    assert_eq!(response.status.code(), 200);
    assert_eq!(response.content_type, Some("text/html; charset=utf-8".to_string()));
    assert_eq!(response.body, contents);
}

#[test]
fn directory_request_serves_its_index_file() {
    let state = serving("/srv");
    let first = handler(&state, Fallback::Plain, "/blog/", Seen::Nothing);
    assert_eq!(first, Action::Read { path: "/srv/blog/index.html".to_string() });

    let contents = b"<p>posts</p>".to_vec();
    let response =
        respond(handler(&state, Fallback::Plain, "/blog/", Seen::File(Some(contents.clone()))));
    assert_eq!(response.status, Status::Success);
    assert_eq!(response.content_type, Some("text/html; charset=utf-8".to_string()));
    assert_eq!(response.body, contents);
}

#[test]
fn root_request_reads_the_root_index() {
    let state = serving("/srv");
    let first = handler(&state, Fallback::Plain, "/", Seen::Nothing);
    assert_eq!(first, Action::Read { path: "/srv/index.html".to_string() });
}

#[test]
fn index_request_and_its_index_file_resolve_alike() {
    let state = serving("/srv");
    let contents = b"<p>posts</p>".to_vec();
    let by_directory = handler(&state, Fallback::Plain, "/blog/", Seen::File(Some(contents.clone())));
    let by_file =
        handler(&state, Fallback::Plain, "/blog/index.html", Seen::File(Some(contents.clone())));
    assert_eq!(by_directory, by_file);
    assert_eq!(
        handler(&state, Fallback::Plain, "/blog/", Seen::Nothing),
        handler(&state, Fallback::Plain, "/blog/index.html", Seen::Nothing)
    );
}

#[test]
fn missing_file_lists_the_html_files_beside_it() {
    let state = serving("/srv");
    let first = handler(&state, Fallback::Listing, "/missing.html", Seen::Nothing);
    assert_eq!(first, Action::Read { path: "/srv/missing.html".to_string() });

    let second = handler(&state, Fallback::Listing, "/missing.html", Seen::File(None));
    assert_eq!(second, Action::Enumerate { pattern: "/srv/**/*.html".to_string() });

    let matches = vec![Some("/srv/a.html".to_string()), Some("/srv/b.html".to_string())];
    let third = handler(&state, Fallback::Listing, "/missing.html", Seen::Matches(matches));
    assert_eq!(
        third,
        Action::Render { list: vec!["/srv/a.html".to_string(), "/srv/b.html".to_string()] }
    );

    let page = "<ul><li>/srv/a.html</li><li>/srv/b.html</li></ul>".to_string();
    let response = respond(handler(
        &state,
        Fallback::Listing,
        "/missing.html",
        Seen::Page(Ok(page.clone())),
    ));
    assert_eq!(response.status, Status::NotFound);
    assert_eq!(response.status.code(), 404);
    assert_eq!(response.content_type, Some("text/html; charset=utf-8".to_string()));
    assert_eq!(response.body, page.into_bytes());
    let body = String::from_utf8(response.body).unwrap();
    assert!(body.contains("a.html"));
    assert!(body.contains("b.html"));
}

#[test]
fn missing_file_is_a_bare_404_under_the_plain_fallback() {
    let state = serving("/srv");
    let response =
        respond(handler(&state, Fallback::Plain, "/missing.html", Seen::File(None)));
    assert_eq!(response.status, Status::NotFound);
    assert_eq!(response.content_type, None);
    assert!(response.body.is_empty());
}

#[test]
fn directory_without_slash_is_not_found_never_an_error() {
    let state = serving("/srv");
    let at_once = respond(handler(&state, Fallback::Plain, "/secret", Seen::Nothing));
    assert_eq!(at_once.status, Status::NotFound);
    assert_eq!(at_once.status.code(), 404);
    assert!(at_once.body.is_empty());

    let after_failed_read =
        respond(handler(&state, Fallback::Plain, "/secret", Seen::File(None)));
    assert_eq!(after_failed_read.status, Status::NotFound);
    assert_ne!(after_failed_read.status, Status::ServerError);
}

#[test]
fn failing_renderer_is_a_500_with_its_diagnostic() {
    let state = serving("/srv");
    let response = respond(handler(
        &state,
        Fallback::Listing,
        "/missing.html",
        Seen::Page(Err("template `listing` not found".to_string())),
    ));
    assert_eq!(response.status, Status::ServerError);
    assert_eq!(response.status.code(), 500);
    assert_eq!(response.content_type, None);
    assert!(!response.body.is_empty());
    assert_eq!(response.body, b"template `listing` not found".to_vec());
}

#[test]
fn path_without_extension_falls_back_without_a_read() {
    let state = serving("/srv");
    let plain = respond(handler(&state, Fallback::Plain, "/README", Seen::Nothing));
    assert_eq!(plain, Response { status: Status::NotFound, content_type: None, body: vec![] });

    let listing = handler(&state, Fallback::Listing, "/README", Seen::Nothing);
    assert_eq!(listing, Action::Enumerate { pattern: "/srv/**/*.html".to_string() });
}

#[test]
fn file_without_guessed_media_type_is_not_served_even_if_read() {
    let state = serving("/srv");
    let response =
        respond(handler(&state, Fallback::Plain, "/README", Seen::File(Some(b"hi".to_vec()))));
    assert_eq!(response.status, Status::NotFound);
    assert!(response.body.is_empty());
}

#[test]
fn unknown_extension_falls_back() {
    let state = serving("/srv");
    let response =
        respond(handler(&state, Fallback::Plain, "/data.no-such-extension", Seen::Nothing));
    assert_eq!(response.status, Status::NotFound);
}

#[test]
fn binary_file_keeps_the_charset_suffix() {
    let state = serving("/srv");
    let bytes: Vec<u8> = vec![0x89, 0x50, 0x4e, 0x47, 0x00, 0xff];
    let response =
        respond(handler(&state, Fallback::Plain, "/logo.png", Seen::File(Some(bytes.clone()))));
    assert_eq!(response.status, Status::Success);
    assert_eq!(response.content_type, Some("image/png; charset=utf-8".to_string()));
    assert_eq!(response.body, bytes);
}

#[test]
fn stylesheet_is_served_byte_for_byte() {
    let state = serving("/var/www");
    let bytes = b"body { margin: 0 }\n".to_vec();
    assert_eq!(
        handler(&state, Fallback::Plain, "/css/site.css", Seen::Nothing),
        Action::Read { path: "/var/www/css/site.css".to_string() }
    );
    let response = respond(handler(
        &state,
        Fallback::Plain,
        "/css/site.css",
        Seen::File(Some(bytes.clone())),
    ));
    assert_eq!(
        response,
        Response {
            status: Status::Success,
            content_type: Some("text/css; charset=utf-8".to_string()),
            body: bytes,
        }
    );
}

#[test]
fn extension_is_matched_without_regard_to_case() {
    let state = serving("/srv");
    let response =
        respond(handler(&state, Fallback::Plain, "/INDEX.HTML", Seen::File(Some(vec![1, 2, 3]))));
    assert_eq!(response.content_type, Some("text/html; charset=utf-8".to_string()));
}

#[test]
fn same_request_gives_the_same_response() {
    let state = serving("/srv");
    let contents = b"<h1>About</h1>".to_vec();
    let once = handler(&state, Fallback::Plain, "/about.html", Seen::File(Some(contents.clone())));
    let again = handler(&state, Fallback::Plain, "/about.html", Seen::File(Some(contents)));
    assert_eq!(once, again);
    assert_eq!(
        handler(&state, Fallback::Listing, "/nothing.html", Seen::File(None)),
        handler(&state, Fallback::Listing, "/nothing.html", Seen::File(None))
    );
}

#[test]
fn nested_missing_file_lists_its_parent_directory() {
    let state = serving("/srv");
    let action = handler(&state, Fallback::Listing, "/docs/guide/missing.html", Seen::File(None));
    assert_eq!(action, Action::Enumerate { pattern: "/srv/docs/guide/**/*.html".to_string() });
}

#[test]
fn index_request_lists_the_requested_directory() {
    let state = serving("/srv");
    let action = handler(&state, Fallback::Listing, "/blog/", Seen::File(None));
    assert_eq!(action, Action::Enumerate { pattern: "/srv/blog//**/*.html".to_string() });
}

#[test]
fn candidate_without_parent_is_its_own_search_directory() {
    let target = locate("", "");
    assert_eq!(
        target,
        Target { path: "".to_string(), media_type: None, search_directory: "".to_string() }
    );
    let state = serving("");
    assert_eq!(
        handler(&state, Fallback::Listing, "", Seen::Nothing),
        Action::Enumerate { pattern: "/**/*.html".to_string() }
    );
}

#[test]
fn locate_finds_path_media_type_and_search_directory() {
    assert_eq!(
        locate("/srv", "/docs/page.html"),
        Target {
            path: "/srv/docs/page.html".to_string(),
            media_type: Some("text/html".to_string()),
            search_directory: "/srv/docs".to_string(),
        }
    );
    assert_eq!(
        locate("/srv", "/docs/"),
        Target {
            path: "/srv/docs/index.html".to_string(),
            media_type: Some("text/html".to_string()),
            search_directory: "/srv/docs/".to_string(),
        }
    );
    assert_eq!(
        locate("site", "/notes.txt"),
        Target {
            path: "site/notes.txt".to_string(),
            media_type: Some("text/plain".to_string()),
            search_directory: "site".to_string(),
        }
    );
}

#[test]
fn only_one_leading_slash_is_stripped_before_joining() {
    let target = locate("/srv", "//about.html");
    assert_eq!(target.path, "/about.html");
    let relative = locate("/srv", "about.html");
    assert_eq!(relative.path, "/srv/about.html");
}

#[test]
fn decide_works_on_a_given_target() {
    let target = Target {
        path: "/srv/a.json".to_string(),
        media_type: Some("application/json".to_string()),
        search_directory: "/srv".to_string(),
    };
    assert_eq!(
        decide(Fallback::Listing, &target, Seen::Nothing),
        Action::Read { path: "/srv/a.json".to_string() }
    );
    assert_eq!(
        decide(Fallback::Listing, &target, Seen::File(Some(b"{}".to_vec()))),
        Action::Respond(Response {
            status: Status::Success,
            content_type: Some("application/json; charset=utf-8".to_string()),
            body: b"{}".to_vec(),
        })
    );
    assert_eq!(
        decide(Fallback::Listing, &target, Seen::File(None)),
        Action::Enumerate { pattern: "/srv/**/*.html".to_string() }
    );
    assert_eq!(
        decide(Fallback::Plain, &target, Seen::File(None)),
        Action::Respond(Response { status: Status::NotFound, content_type: None, body: vec![] })
    );
    assert_eq!(
        decide(Fallback::Listing, &target, Seen::Matches(vec![])),
        Action::Render { list: vec![] }
    );
}

#[test]
fn plain_fallback_never_lists_and_never_fails() {
    let state = serving("/srv");
    let bare = Action::Respond(Response { status: Status::NotFound, content_type: None, body: vec![] });
    assert_eq!(
        handler(&state, Fallback::Plain, "/x.html", Seen::Matches(vec![Some("a.html".to_string())])),
        bare
    );
    assert_eq!(
        handler(&state, Fallback::Plain, "/x.html", Seen::Page(Ok("<ul></ul>".to_string()))),
        bare
    );
    assert_eq!(
        handler(&state, Fallback::Plain, "/x.html", Seen::Page(Err("boom".to_string()))),
        bare
    );
}

#[test]
fn non_ascii_request_path_is_handled_by_character() {
    let state = serving("/srv");
    assert_eq!(
        handler(&state, Fallback::Plain, "/caf\u{e9}/men\u{fc}.html", Seen::Nothing),
        Action::Read { path: "/srv/caf\u{e9}/men\u{fc}.html".to_string() }
    );
    assert_eq!(
        handler(&state, Fallback::Plain, "/caf\u{e9}/", Seen::Nothing),
        Action::Read { path: "/srv/caf\u{e9}/index.html".to_string() }
    );
}

#[test]
fn rendered_page_is_sent_as_utf8() {
    let state = serving("/srv");
    let response = respond(handler(
        &state,
        Fallback::Listing,
        "/x.html",
        Seen::Page(Ok("<li>caf\u{e9}.html</li>".to_string())),
    ));
    assert_eq!(response.body, "<li>caf\u{e9}.html</li>".as_bytes().to_vec());
}
