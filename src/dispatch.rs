use vstd::prelude::*;
use crate::error::{message_spec, status_spec, NnntpError};
use crate::json::{field, str_field, Json};
use crate::request::{env_of, kind_of_path, nested_str, path_kind, shape, Kind, NnntpRequest, Request};
use crate::store::{Board, BoardView};
use crate::wire::{encode_listing, wire_listing};

verus! {

/// What the transport sends back: a status, a content string, and the
/// members to add to the response body.
pub struct Reply {
    pub status: u16,
    pub message: String,
    pub extra: Option<Json>,
}

/// The kind a request is served as, or why it is refused before any work:
/// the path selects the kind; the body must hold every member of its kind,
/// typed, and its own `type` must name the same kind.
pub open spec fn admitted(path: Seq<char>, body: Json) -> Result<Kind, NnntpError> {
    match path_kind(path) {
        None => Err(NnntpError::UnknownRequestType),
        Some(k) => match shape(body, false) {
            Err(e) => Err(e),
            Ok(_) => match shape(body, true) {
                Err(e) => Err(e),
                Ok(k2) => if k2 == k {
                    Ok(k)
                } else {
                    Err(NnntpError::UnknownRequestType)
                },
            },
        },
    }
}

pub open spec fn author_str(body: Json, key: Seq<char>) -> Seq<char> {
    nested_str(env_of(body), "author"@, key).unwrap()
}

/// The content of a refusal for a malformed request.
pub open spec fn bad_request(e: NnntpError) -> Seq<char> {
    "bad request - "@ + message_spec(e)
}

/// The reply to a failed write: authentication failures keep their own
/// status and detail; anything else is a generic failure.
pub open spec fn write_failed(r: Reply, e: NnntpError, generic: Seq<char>) -> bool {
    &&& r.status == status_spec(e)
    &&& r.message@ == if status_spec(e) == 401 {
        message_spec(e)
    } else {
        generic
    }
    &&& r.extra is None
}

/// The id member of a successful post reply.
pub open spec fn id_reply(j: Json, id: int) -> bool {
    &&& j matches Json::Object(fs) && fs@.len() == 1
    &&& field(j, "id"@) == Some(Json::Number(id as i64))
}

/// The reply and the new board for an admitted request of kind `k`.
/// Registration is left out: its digest is drawn at random.
pub open spec fn served(k: Kind, body: Json, old: BoardView, new: BoardView, r: Reply) -> bool {
    let env = env_of(body);
    match k {
        Kind::Post => {
            let author = author_str(body, "username"@);
            let password = author_str(body, "password"@);
            let row = old.new_post(
                str_field(env, "group"@).unwrap(),
                nested_str(env, "post"@, "subject"@).unwrap(),
                nested_str(env, "post"@, "body"@).unwrap(),
                author,
                author_str(body, "email"@),
            );
            match old.post_outcome(old.credentials(author, password)) {
                Ok(id) => r.status == 200 && r.message@ == "Posted OK"@ && new == old.with_post(row)
                    && (r.extra matches Some(j) && id_reply(j, id)),
                Err(e) => new == old && write_failed(r, e, "Failed to post"@),
            }
        },
        Kind::Comment => {
            let author = author_str(body, "username"@);
            let password = author_str(body, "password"@);
            let parent = match field(field(env, "parent"@).unwrap(), "id"@) {
                Some(Json::Number(n)) => n as int,
                _ => 0,
            };
            match old.comment_outcome(old.credentials(author, password), parent) {
                Ok(()) => r.status == 200 && r.message@ == "Commented OK"@ && r.extra is None && new
                    == old.with_comment(
                    crate::store::CommentRow {
                        parent_id: parent,
                        body: nested_str(env, "comment"@, "body"@).unwrap(),
                        author,
                        author_email: author_str(body, "email"@),
                    },
                ),
                Err(e) => new == old && write_failed(r, e, "Failed to comment"@),
            }
        },
        Kind::List => r.status == 200 && r.message@ == "processed OK"@ && new == old
            && (r.extra matches Some(j) && wire_listing(j, old.listing(str_field(env, "group"@).unwrap()))),
        Kind::New => {
            let name = str_field(env, "username"@).unwrap();
            if old.registered(name) {
                r.status == 400 && r.message@ == message_spec(NnntpError::DuplicateUser) && r.extra is None
                    && new == old
            } else {
                ||| (r.status == 200 && r.message@ == "User created"@ && r.extra is None
                    && new == old.with_user(name, new.users.last().1)
                    && new.credentials(name, str_field(env, "password"@).unwrap()) is Ok)
                ||| (r.status == 400 && r.message@ == message_spec(NnntpError::StorageFailure)
                    && r.extra is None && new == old)
            }
        },
    }
}

fn refuse(e: NnntpError) -> (r: Reply)
    ensures
        r.status == 400,
        r.message@ == bad_request(e),
        r.extra is None,
{
    Reply { status: 400, message: String::from_str("bad request - ").concat(e.message().as_str()), extra: None }
}

fn failed(e: NnntpError, generic: &str) -> (r: Reply)
    ensures
        write_failed(r, e, generic@),
{
    let status = e.status();
    let message = if status == 401 {
        e.message()
    } else {
        String::from_str(generic)
    };
    Reply { status, message, extra: None }
}

fn ok(message: &str, extra: Option<Json>) -> (r: Reply)
    ensures
        r.status == 200,
        r.message@ == message@,
        r.extra == extra,
{
    Reply { status: 200, message: String::from_str(message), extra }
}

/// Serves one request addressed to `path`: checks it, authenticates writes,
/// applies it to the board and builds the reply.
pub fn handle(board: &mut Board, path: &str, request: &NnntpRequest) -> (r: Reply)
    requires
        old(board)@.wf(),
    ensures
        final(board)@.wf(),
        match admitted(path@, request.body) {
            Err(e) => r.status == 400 && r.message@ == bad_request(e) && r.extra is None
                && final(board)@ == old(board)@,
            Ok(k) => served(k, request.body, old(board)@, final(board)@, r),
        },
{
    let k = match kind_of_path(path) {
        None => return refuse(NnntpError::UnknownRequestType),
        Some(k) => k,
    };
    if let Err(e) = request.validate() {
        return refuse(e);
    }
    let req = match request.parse() {
        Err(e) => return refuse(e),
        Ok(req) => req,
    };
    match req {
        Request::Post { group, subject, body, author } => {
            if k != Kind::Post {
                return refuse(NnntpError::UnknownRequestType);
            }
            match board.create_post(
                group.as_str(),
                subject.as_str(),
                body.as_str(),
                author.username.as_str(),
                author.password.as_str(),
                author.email.as_str(),
            ) {
                Ok(id) => {
                    let mut fs: Vec<(String, Json)> = Vec::new();
                    fs.push((String::from_str("id"), Json::Number(id as i64)));
                    proof {
                        reveal_with_fuel(crate::json::member_from, 2);
                    }
                    ok("Posted OK", Some(Json::Object(fs)))
                },
                Err(e) => failed(e, "Failed to post"),
            }
        },
        Request::Comment { parent, body, author } => {
            if k != Kind::Comment {
                return refuse(NnntpError::UnknownRequestType);
            }
            match board.add_comment(
                parent,
                body.as_str(),
                author.username.as_str(),
                author.password.as_str(),
                author.email.as_str(),
            ) {
                Ok(()) => ok("Commented OK", None),
                Err(e) => failed(e, "Failed to comment"),
            }
        },
        Request::List { group } => {
            if k != Kind::List {
                return refuse(NnntpError::UnknownRequestType);
            }
            let listed = board.list_group(group.as_str());
            ok("processed OK", Some(encode_listing(&listed)))
        },
        Request::New { username, password } => {
            if k != Kind::New {
                return refuse(NnntpError::UnknownRequestType);
            }
            match board.register(username.as_str(), password.as_str()) {
                Ok(()) => ok("User created", None),
                Err(e) => Reply { status: 400, message: e.message(), extra: None },
            }
        },
    }
}

} // verus!
