use nnntp::client::{outcome, read_listing, ServerConnection, User};
use nnntp::dispatch::handle;
use nnntp::error::{Field, NnntpError};
use nnntp::json::Json;
use nnntp::request::{NnntpRequest, Request};
use nnntp::store::Board;
use nnntp::wire::{decode_listing, decode_post, encode_listing, encode_post};

fn obj(members: Vec<(&str, Json)>) -> Json {
    Json::Object(members.into_iter().map(|(k, v)| (k.to_string(), v)).collect())
}

fn s(t: &str) -> Json {
    Json::Str(t.to_string())
}

fn envelope(env: Json) -> NnntpRequest {
    NnntpRequest::new(obj(vec![("nnntp", env)]))
}

fn author(u: &str, p: &str) -> Json {
    obj(vec![("username", s(u)), ("password", s(p)), ("email", s("e@x"))])
}

fn post_env(group: &str, subject: &str, body: &str, u: &str, p: &str) -> NnntpRequest {
    envelope(obj(vec![
        ("type", s("post")),
        ("group", s(group)),
        ("post", obj(vec![("subject", s(subject)), ("body", s(body))])),
        ("author", author(u, p)),
    ]))
}

fn new_env(u: &str, p: &str) -> NnntpRequest {
    envelope(obj(vec![("type", s("new")), ("username", s(u)), ("password", s(p))]))
}

fn list_env(group: &str) -> NnntpRequest {
    envelope(obj(vec![("type", s("list")), ("group", s(group))]))
}

fn comment_env(parent: Json, body: &str, u: &str, p: &str) -> NnntpRequest {
    envelope(obj(vec![
        ("type", s("comment")),
        ("parent", obj(vec![("id", parent)])),
        ("comment", obj(vec![("body", s(body))])),
        ("author", author(u, p)),
    ]))
}

#[test]
fn validate_reports_first_missing_member() {
    let r = NnntpRequest::new(obj(vec![]));
    assert_eq!(r.validate(), Err(NnntpError::MissingField(Field::Nnntp)));
    let r = envelope(obj(vec![("type", s("post")), ("group", s("g"))]));
    assert_eq!(r.validate(), Err(NnntpError::MissingField(Field::Post)));
    let r = envelope(obj(vec![
        ("type", s("post")),
        ("group", s("g")),
        ("post", obj(vec![("subject", s("S")), ("body", s("B"))])),
        ("author", obj(vec![("username", s("u")), ("password", s("p"))])),
    ]));
    assert_eq!(r.validate(), Err(NnntpError::MissingField(Field::Email)));
    let r = envelope(obj(vec![("type", s("new")), ("username", s("u"))]));
    assert_eq!(r.validate(), Err(NnntpError::MissingField(Field::Password)));
    let r = envelope(obj(vec![("type", s("list"))]));
    assert_eq!(r.validate(), Err(NnntpError::MissingField(Field::Group)));
    let r = envelope(obj(vec![("type", s("comment")), ("parent", obj(vec![("id", Json::Number(1))]))]));
    assert_eq!(r.validate(), Err(NnntpError::MissingField(Field::Comment)));
}

#[test]
fn unknown_or_missing_type_is_reported() {
    assert_eq!(envelope(obj(vec![("type", s("delete"))])).validate(), Err(NnntpError::UnknownRequestType));
    assert_eq!(envelope(obj(vec![("group", s("g"))])).validate(), Err(NnntpError::UnknownRequestType));
    assert_eq!(envelope(obj(vec![("type", Json::Number(3))])).validate(), Err(NnntpError::UnknownRequestType));
}

#[test]
fn validation_is_presence_only() {
    let r = comment_env(s("abc"), "c", "u", "p");
    assert_eq!(r.validate(), Ok(()));
    assert_eq!(r.parse().err(), Some(NnntpError::MissingField(Field::Id)));
    let r = comment_env(Json::Number(1 << 40), "c", "u", "p");
    assert_eq!(r.parse().err(), Some(NnntpError::MissingField(Field::Id)));
}

#[test]
fn parse_reads_typed_members() {
    match post_env("g", "S", "B", "u", "p").parse() {
        Ok(Request::Post { group, subject, body, author }) => {
            assert_eq!((group.as_str(), subject.as_str(), body.as_str()), ("g", "S", "B"));
            assert_eq!((author.username.as_str(), author.password.as_str(), author.email.as_str()), ("u", "p", "e@x"));
        },
        _ => panic!("not a post"),
    }
    match comment_env(Json::Number(7), "c", "u", "p").parse() {
        Ok(Request::Comment { parent, body, .. }) => assert_eq!((parent, body.as_str()), (7, "c")),
        _ => panic!("not a comment"),
    }
}

#[test]
fn error_messages_and_statuses() {
    assert_eq!(NnntpError::MissingField(Field::Subject).message(), "subject is required");
    assert_eq!(NnntpError::UnknownRequestType.message(), "valid type is required");
    assert_eq!(NnntpError::InvalidUser.status(), 401);
    assert_eq!(NnntpError::UnknownUser.status(), 401);
    assert_eq!(NnntpError::DuplicateUser.status(), 400);
    assert_eq!(NnntpError::StorageFailure.status(), 400);
}

#[test]
fn server_session_register_post_comment_list() {
    let mut b = Board::new();
    let r = handle(&mut b, "/new", &new_env("alice", "pw"));
    assert_eq!((r.status, r.message.as_str()), (200, "User created"));
    let r = handle(&mut b, "/new", &new_env("alice", "other"));
    assert_eq!((r.status, r.message.as_str()), (400, "User already exists"));
    let r = handle(&mut b, "/post", &post_env("g", "S", "B", "alice", "pw"));
    assert_eq!((r.status, r.message.as_str()), (200, "Posted OK"));
    let id = match r.extra.as_ref().unwrap().get("id") {
        Some(Json::Number(n)) => *n,
        _ => panic!("no id"),
    };
    assert_eq!(id, 1);
    let r = handle(&mut b, "/post", &post_env("g", "S", "B", "alice", "bad"));
    assert_eq!((r.status, r.message.as_str()), (401, "Invalid user"));
    let r = handle(&mut b, "/comment", &comment_env(Json::Number(id), "hi", "alice", "pw"));
    assert_eq!((r.status, r.message.as_str()), (200, "Commented OK"));
    let r = handle(&mut b, "/list", &list_env("g"));
    assert_eq!(r.status, 200);
    let posts = decode_listing(r.extra.as_ref().unwrap()).unwrap();
    assert_eq!(posts.group, "g");
    assert_eq!(posts.posts.len(), 1);
    assert_eq!(posts.posts[0].id, 1);
    assert_eq!(posts.posts[0].subject, "S");
    assert_eq!(posts.posts[0].comments.len(), 1);
    assert_eq!(posts.posts[0].comments[0].body, "hi");
    assert_eq!(posts.posts[0].comments[0].author_email.as_deref(), Some("e@x"));
}

#[test]
fn malformed_requests_get_bad_request() {
    let mut b = Board::new();
    let r = handle(&mut b, "/post", &envelope(obj(vec![("type", s("post"))])));
    assert_eq!((r.status, r.message.as_str()), (400, "bad request - group is required"));
    let r = handle(&mut b, "/post", &list_env("g"));
    assert_eq!((r.status, r.message.as_str()), (400, "bad request - valid type is required"));
    let r = handle(&mut b, "/nothing", &list_env("g"));
    assert_eq!(r.status, 400);
    let r = handle(&mut b, "/post", &post_env("g", "S", "B", "ghost", "pw"));
    assert_eq!((r.status, r.message.as_str()), (401, "Unknown user"));
    assert!(b.posts().is_empty());
}

#[test]
fn empty_listing_has_sentinel_label() {
    let mut b = Board::new();
    let r = handle(&mut b, "/list", &list_env("empty"));
    assert_eq!(r.status, 200);
    let posts = read_listing(r.extra.as_ref().unwrap()).unwrap();
    assert!(posts.posts.is_empty());
    assert_eq!(posts.group, "no_posts");
}

#[test]
fn post_round_trips_through_wire() {
    let mut b = Board::new();
    b.add_account("a", Some("d".to_string())).unwrap();
    b.post_as(Some(true), "comp.lang.rust", "Subj", "Body", "a", "a@x").unwrap();
    b.comment_as(Some(true), 1, "one", "a", "c1@x").unwrap();
    b.comment_as(Some(true), 1, "two", "a", "c2@x").unwrap();
    let listed = b.list_group("comp.lang.rust");
    let p = decode_post(&encode_post(&listed[0])).unwrap();
    assert_eq!(p.id, 1);
    assert_eq!(p.group, "comp.lang.rust");
    assert_eq!(p.subject, "Subj");
    assert_eq!(p.body, "Body");
    assert_eq!(p.author, "a");
    assert_eq!(p.author_email.as_deref(), Some("a@x"));
    let c: Vec<(&str, &str)> = p.comments.iter().map(|c| (c.body.as_str(), c.author_email.as_deref().unwrap())).collect();
    assert_eq!(c, vec![("one", "c1@x"), ("two", "c2@x")]);
    let all = decode_listing(&encode_listing(&listed)).unwrap();
    assert_eq!(all.group, "comp.lang.rust");
}

fn good_post() -> Json {
    obj(vec![
        ("id", Json::Number(1)),
        ("group_name", s("g")),
        ("subject", s("S")),
        ("body", s("B")),
        ("author", s("a")),
        ("comments", Json::Array(vec![obj(vec![("body", s("c")), ("author", s("a"))])])),
    ])
}

#[test]
fn listing_decode_is_all_or_nothing() {
    let ok = obj(vec![("nnntp", Json::Array(vec![good_post()]))]);
    let p = decode_listing(&ok).unwrap();
    assert_eq!(p.group, "g");
    assert_eq!(p.posts[0].author_email, None);
    assert_eq!(p.posts[0].comments[0].author_email, None);
    let bad = obj(vec![("id", s("1")), ("group_name", s("g"))]);
    let items = vec![good_post(), bad];
    assert_eq!(decode_listing(&obj(vec![("nnntp", Json::Array(items))])).err(), Some(NnntpError::InvalidResponse));
    let big = obj(vec![("nnntp", Json::Array(vec![obj(vec![
        ("id", Json::Number(1 << 40)),
        ("group_name", s("g")),
        ("subject", s("S")),
        ("body", s("B")),
        ("author", s("a")),
        ("comments", Json::Array(vec![])),
    ])]))]);
    assert_eq!(decode_listing(&big).err(), Some(NnntpError::InvalidResponse));
    assert_eq!(decode_listing(&obj(vec![])).err(), Some(NnntpError::InvalidResponse));
    assert_eq!(read_listing(&obj(vec![("nnntp", s("x"))])).err().as_deref(), Some("Invalid response"));
}

#[test]
fn client_builds_requests_the_server_accepts() {
    let none = ServerConnection::new("localhost", 8080, None);
    assert_eq!(none.post("g", "S", "B").err().as_deref(), Some("No user provided"));
    assert_eq!(none.comment(1, "c").err().as_deref(), Some("No user provided"));
    let user = User::new("username", None, "password");
    let c = ServerConnection::new("localhost", 8080, Some(user));
    let o = c.post("comp.lang.rust", "S", "B").unwrap();
    assert_eq!(o.path, "/post");
    let req = NnntpRequest::new(o.body);
    assert_eq!(req.validate(), Ok(()));
    match req.parse() {
        Ok(Request::Post { group, author, .. }) => {
            assert_eq!(group, "comp.lang.rust");
            assert_eq!(author.email, "no_email@provided.com");
        },
        _ => panic!("not a post"),
    }
    let o = c.comment(3, "This is a comment").unwrap();
    assert_eq!(o.path, "/comment");
    assert!(matches!(NnntpRequest::new(o.body).parse(), Ok(Request::Comment { parent: 3, .. })));
    let o = c.list("comp.lang.rust");
    assert_eq!(o.path, "/list");
    assert!(matches!(NnntpRequest::new(o.body).parse(), Ok(Request::List { .. })));
    let o = c.new_user("u", "p");
    assert_eq!(o.path, "/new");
    assert!(matches!(NnntpRequest::new(o.body).parse(), Ok(Request::New { .. })));
}

#[test]
fn status_codes_map_to_outcomes() {
    assert_eq!(outcome(200), Ok(()));
    assert_eq!(outcome(400).err().as_deref(), Some("Invalid request"));
    assert_eq!(outcome(401).err().as_deref(), Some("Unauthorized"));
    assert_eq!(outcome(500).err().as_deref(), Some("Unknown error"));
}

#[test]
fn user_keeps_given_email() {
    let u = User::new("n", Some("e@x"), "p");
    assert_eq!(u.email.as_deref(), Some("e@x"));
    let c = ServerConnection::new("h", 1, Some(u));
    match NnntpRequest::new(c.comment(1, "b").unwrap().body).parse() {
        Ok(Request::Comment { author, .. }) => assert_eq!(author.email, "e@x"),
        _ => panic!("not a comment"),
    }
}

fn exchange(board: &mut Board, out: nnntp::client::Outgoing) -> nnntp::dispatch::Reply {
    handle(board, out.path.as_str(), &NnntpRequest::new(out.body))
}

#[test]
fn it_works() {
    let mut board = Board::new();
    let user = User::new("username", None, "password");
    let server = ServerConnection::new("localhost", 8080, Some(user));
    assert_eq!(outcome(exchange(&mut board, server.new_user("username", "password")).status), Ok(()));
    let first = exchange(&mut board, server.post("comp.lang.rust", "Subject", "Body").unwrap());
    assert_eq!(outcome(first.status), Ok(()));

    let reply = exchange(&mut board, server.list("comp.lang.rust"));
    let parent_id = match read_listing(reply.extra.as_ref().unwrap()) {
        Ok(posts) => posts.posts[0].id,
        Err(err) => panic!("{}", err),
    };
    println!("Parent id: {}", parent_id);

    let reply = exchange(&mut board, server.comment(parent_id, "This is a comment").unwrap());
    outcome(reply.status).unwrap();

    let reply = exchange(&mut board, server.list("comp.lang.rust"));
    let posts = read_listing(reply.extra.as_ref().unwrap()).unwrap();
    println!("Listing: {} posts in {}", posts.posts.len(), posts.group);
    assert_eq!(posts.posts[0].comments.len(), 1);
    assert_eq!(posts.posts[0].comments[0].body, "This is a comment");
}

fn envelope_keys(body: &Json) -> Vec<String> {
    match body {
        Json::Object(top) => {
            assert_eq!(top.len(), 1);
            assert_eq!(top[0].0, "nnntp");
            match &top[0].1 {
                Json::Object(fs) => fs.iter().map(|(k, _)| k.clone()).collect(),
                _ => panic!("envelope is not an object"),
            }
        },
        _ => panic!("body is not an object"),
    }
}

#[test]
fn request_bodies_hold_exactly_their_members() {
    let user = User::new("u", Some("e@x"), "p");
    let c = ServerConnection::new("localhost", 8080, Some(user));
    assert_eq!(envelope_keys(&c.post("g", "S", "B").unwrap().body), vec!["type", "group", "post", "author"]);
    assert_eq!(envelope_keys(&c.comment(1, "b").unwrap().body), vec!["type", "parent", "comment", "author"]);
    assert_eq!(envelope_keys(&c.list("g").body), vec!["type", "group"]);
    assert_eq!(envelope_keys(&c.new_user("n", "pw").body), vec!["type", "username", "password"]);
}

#[test]
fn registered_password_authenticates_over_the_wire() {
    let mut b = Board::new();
    let r = handle(&mut b, "/new", &new_env("carol", "pw1"));
    assert_eq!(r.status, 200);
    assert_ne!(b.accounts()[0].digest, "pw1");
    assert_eq!(b.authenticate("carol", "pw1"), Ok(()));
    let r = handle(&mut b, "/new", &new_env("carol", "pw2"));
    assert_eq!(r.status, 400);
    assert_eq!(b.authenticate("carol", "pw1"), Ok(()));
    assert_eq!(b.authenticate("carol", "pw2"), Err(NnntpError::InvalidUser));
}
