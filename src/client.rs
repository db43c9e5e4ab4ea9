use vstd::prelude::*;
use crate::error::NnntpError;
use crate::json::{entry, member_from, members, pair_is, str_field, text, Json};
use crate::request::{env_of, nested_str, shape, Kind};
use crate::wire::{decode_listing, decode_listing_spec, Post, Posts};

verus! {

/// The credentials a client posts and comments with.
pub struct User {
    pub username: String,
    pub email: Option<String>,
    pub password: String,
}

impl User {
    pub fn new(username: &str, email: Option<&str>, password: &str) -> (r: User)
        ensures
            r.username@ == username@,
            r.password@ == password@,
            match email {
                Some(e) => r.email matches Some(s) && s@ == e@,
                None => r.email is None,
            },
    {
        User {
            username: username.to_owned(),
            email: match email {
                Some(e) => Some(e.to_owned()),
                None => None,
            },
            password: password.to_owned(),
        }
    }
}

/// A request ready for the transport: the path it goes to and the members
/// of its body.
pub struct Outgoing {
    pub path: String,
    pub body: Json,
}

/// Where a client sends its requests, and as whom.
pub struct ServerConnection {
    pub host: String,
    pub port: u16,
    pub user: Option<User>,
}

/// The address sent for a user who gave none.
pub open spec fn default_email() -> Seq<char> {
    "no_email@provided.com"@
}

pub open spec fn email_of(u: User) -> Seq<char> {
    match u.email {
        Some(e) => e@,
        None => default_email(),
    }
}

/// `body` carries the author block of `u`.
pub open spec fn carries_author(body: Json, u: User) -> bool {
    let env = env_of(body);
    &&& nested_str(env, "author"@, "username"@) == Some(u.username@)
    &&& nested_str(env, "author"@, "password"@) == Some(u.password@)
    &&& nested_str(env, "author"@, "email"@) == Some(email_of(u))
}

/// The reply status as the client reports it.
pub open spec fn outcome_spec(code: u16) -> Result<(), Seq<char>> {
    if code == 200 {
        Ok(())
    } else if code == 400 {
        Err("Invalid request"@)
    } else if code == 401 {
        Err("Unauthorized"@)
    } else {
        Err("Unknown error"@)
    }
}

/// The members of the envelope of a request body that holds exactly one
/// member, `nnntp`, itself an object.
pub open spec fn sent_envelope(body: Json) -> Option<Seq<(String, Json)>> {
    match members(body) {
        Some(top) => if top.len() == 1 && top[0].0@ == "nnntp"@ {
            members(top[0].1)
        } else {
            None
        },
        None => None,
    }
}

/// `j` is exactly the author block of `u`: username, password, email.
pub open spec fn author_is(j: Json, u: User) -> bool {
    match members(j) {
        Some(a) => a.len() == 3 && pair_is(a[0], "username"@, u.username@) && pair_is(
            a[1],
            "password"@,
            u.password@,
        ) && pair_is(a[2], "email"@, email_of(u)),
        None => false,
    }
}

/// `j` is exactly the object `{k1: v1, k2: v2}`.
pub open spec fn two_texts_are(j: Json, k1: Seq<char>, v1: Seq<char>, k2: Seq<char>, v2: Seq<char>) -> bool {
    match members(j) {
        Some(c) => c.len() == 2 && pair_is(c[0], k1, v1) && pair_is(c[1], k2, v2),
        None => false,
    }
}

/// `j` is exactly the object `{key: s}`.
pub open spec fn one_text_is(j: Json, key: Seq<char>, s: Seq<char>) -> bool {
    match members(j) {
        Some(c) => c.len() == 1 && pair_is(c[0], key, s),
        None => false,
    }
}

/// `j` is exactly the parent reference `{id: parent}`.
pub open spec fn parent_is(j: Json, parent: i32) -> bool {
    match members(j) {
        Some(c) => c.len() == 1 && c[0].0@ == "id"@ && c[0].1 == Json::Number(parent as i64),
        None => false,
    }
}

/// `body` is exactly the body of a post request.
pub open spec fn post_sent(body: Json, group: Seq<char>, subject: Seq<char>, text: Seq<char>, u: User) -> bool {
    match sent_envelope(body) {
        Some(fs) => fs.len() == 4 && pair_is(fs[0], "type"@, "post"@) && pair_is(fs[1], "group"@, group)
            && fs[2].0@ == "post"@ && two_texts_are(fs[2].1, "subject"@, subject, "body"@, text)
            && fs[3].0@ == "author"@ && author_is(fs[3].1, u),
        None => false,
    }
}

/// `body` is exactly the body of a comment request.
pub open spec fn comment_sent(body: Json, parent: i32, text: Seq<char>, u: User) -> bool {
    match sent_envelope(body) {
        Some(fs) => fs.len() == 4 && pair_is(fs[0], "type"@, "comment"@) && fs[1].0@ == "parent"@
            && parent_is(fs[1].1, parent) && fs[2].0@ == "comment"@ && one_text_is(fs[2].1, "body"@, text)
            && fs[3].0@ == "author"@ && author_is(fs[3].1, u),
        None => false,
    }
}

/// `body` is exactly the body of a list request: no credentials.
pub open spec fn list_sent(body: Json, group: Seq<char>) -> bool {
    match sent_envelope(body) {
        Some(fs) => fs.len() == 2 && pair_is(fs[0], "type"@, "list"@) && pair_is(fs[1], "group"@, group),
        None => false,
    }
}

/// `body` is exactly the body of a registration request.
pub open spec fn new_sent(body: Json, username: Seq<char>, password: Seq<char>) -> bool {
    match sent_envelope(body) {
        Some(fs) => fs.len() == 3 && pair_is(fs[0], "type"@, "new"@) && pair_is(fs[1], "username"@, username)
            && pair_is(fs[2], "password"@, password),
        None => false,
    }
}

proof fn lemma_literals()
    ensures
        "nnntp"@.len() == 5 && "nnntp"@[0] == 'n',
        "type"@.len() == 4 && "type"@[0] == 't',
        "group"@.len() == 5 && "group"@[0] == 'g',
        "post"@.len() == 4 && "post"@[0] == 'p',
        "author"@.len() == 6 && "author"@[0] == 'a',
        "subject"@.len() == 7 && "subject"@[0] == 's',
        "body"@.len() == 4 && "body"@[0] == 'b',
        "username"@.len() == 8 && "username"@[0] == 'u',
        "password"@.len() == 8 && "password"@[0] == 'p',
        "email"@.len() == 5 && "email"@[0] == 'e',
        "parent"@.len() == 6 && "parent"@[0] == 'p',
        "comment"@.len() == 7 && "comment"@[0] == 'c',
        "id"@.len() == 2 && "id"@[0] == 'i',
        "list"@.len() == 4 && "list"@[0] == 'l',
        "new"@.len() == 3 && "new"@[0] == 'n',
{
    reveal_strlit("nnntp");
    reveal_strlit("type");
    reveal_strlit("group");
    reveal_strlit("post");
    reveal_strlit("author");
    reveal_strlit("subject");
    reveal_strlit("body");
    reveal_strlit("username");
    reveal_strlit("password");
    reveal_strlit("email");
    reveal_strlit("parent");
    reveal_strlit("comment");
    reveal_strlit("id");
    reveal_strlit("list");
    reveal_strlit("new");
}

/// The body of a request: the envelope under the protocol key.
fn wrap(env: Json) -> (r: Json)
    ensures
        r matches Json::Object(fs) && fs@.len() == 1 && fs@[0].0@ == "nnntp"@ && fs@[0].1 == env,
        crate::json::field(r, "nnntp"@) == Some(env),
{
    let mut fs: Vec<(String, Json)> = Vec::new();
    fs.push(entry("nnntp", env));
    proof {
        reveal_with_fuel(member_from, 2);
    }
    Json::Object(fs)
}

fn author_block(u: &User) -> (r: Json)
    ensures
        str_field(r, "username"@) == Some(u.username@),
        str_field(r, "password"@) == Some(u.password@),
        str_field(r, "email"@) == Some(email_of(*u)),
        author_is(r, *u),
{
    let mut fs: Vec<(String, Json)> = Vec::new();
    fs.push(entry("username", text(u.username.as_str())));
    fs.push(entry("password", text(u.password.as_str())));
    let email = match &u.email {
        Some(e) => text(e.as_str()),
        None => text("no_email@provided.com"),
    };
    fs.push(entry("email", email));
    proof {
        lemma_literals();
        reveal_with_fuel(member_from, 4);
    }
    Json::Object(fs)
}

impl ServerConnection {
    pub fn new(host: &str, port: u16, user: Option<User>) -> (r: ServerConnection)
        ensures
            r.host@ == host@,
            r.port == port,
            r.user == user,
    {
        ServerConnection { host: host.to_owned(), port, user }
    }

    /// The request that posts `subject` and `body` to `group` as this
    /// connection's user; refused where there is none.
    pub fn post(&self, group: &str, subject: &str, body: &str) -> (r: Result<Outgoing, String>)
        ensures
            match self.user {
                None => r matches Err(m) && m@ == "No user provided"@,
                Some(u) => r matches Ok(o) && {
                    let env = env_of(o.body);
                    &&& o.path@ == "/post"@
                    &&& post_sent(o.body, group@, subject@, body@, u)
                    &&& shape(o.body, true) == Ok::<Kind, NnntpError>(Kind::Post)
                    &&& str_field(env, "group"@) == Some(group@)
                    &&& nested_str(env, "post"@, "subject"@) == Some(subject@)
                    &&& nested_str(env, "post"@, "body"@) == Some(body@)
                    &&& carries_author(o.body, u)
                },
            },
    {
        let u = match &self.user {
            Some(u) => u,
            None => return Err(String::from_str("No user provided")),
        };
        let mut content: Vec<(String, Json)> = Vec::new();
        content.push(entry("subject", text(subject)));
        content.push(entry("body", text(body)));
        let mut fs: Vec<(String, Json)> = Vec::new();
        fs.push(entry("type", text("post")));
        fs.push(entry("group", text(group)));
        fs.push(entry("post", Json::Object(content)));
        fs.push(entry("author", author_block(u)));
        proof {
            lemma_literals();
            reveal_with_fuel(member_from, 5);
        }
        Ok(Outgoing { path: String::from_str("/post"), body: wrap(Json::Object(fs)) })
    }

    /// The request that comments `body` on post `parent` as this connection's
    /// user; refused where there is none.
    pub fn comment(&self, parent: i32, body: &str) -> (r: Result<Outgoing, String>)
        ensures
            match self.user {
                None => r matches Err(m) && m@ == "No user provided"@,
                Some(u) => r matches Ok(o) && {
                    let env = env_of(o.body);
                    &&& o.path@ == "/comment"@
                    &&& comment_sent(o.body, parent, body@, u)
                    &&& shape(o.body, true) == Ok::<Kind, NnntpError>(Kind::Comment)
                    &&& crate::json::field(env, "parent"@) matches Some(p) && crate::json::field(p, "id"@)
                        == Some(Json::Number(parent as i64))
                    &&& nested_str(env, "comment"@, "body"@) == Some(body@)
                    &&& carries_author(o.body, u)
                },
            },
    {
        let u = match &self.user {
            Some(u) => u,
            None => return Err(String::from_str("No user provided")),
        };
        let mut p: Vec<(String, Json)> = Vec::new();
        p.push(entry("id", Json::Number(parent as i64)));
        let mut c: Vec<(String, Json)> = Vec::new();
        c.push(entry("body", text(body)));
        let mut fs: Vec<(String, Json)> = Vec::new();
        fs.push(entry("type", text("comment")));
        fs.push(entry("parent", Json::Object(p)));
        fs.push(entry("comment", Json::Object(c)));
        fs.push(entry("author", author_block(u)));
        proof {
            lemma_literals();
            reveal_with_fuel(member_from, 5);
        }
        Ok(Outgoing { path: String::from_str("/comment"), body: wrap(Json::Object(fs)) })
    }

    /// The request that lists `group`.
    pub fn list(&self, group: &str) -> (r: Outgoing)
        ensures
            r.path@ == "/list"@,
            list_sent(r.body, group@),
            shape(r.body, true) == Ok::<Kind, NnntpError>(Kind::List),
            str_field(env_of(r.body), "group"@) == Some(group@),
    {
        let mut fs: Vec<(String, Json)> = Vec::new();
        fs.push(entry("type", text("list")));
        fs.push(entry("group", text(group)));
        proof {
            lemma_literals();
            reveal_with_fuel(member_from, 3);
        }
        Outgoing { path: String::from_str("/list"), body: wrap(Json::Object(fs)) }
    }

    /// The request that registers `username` with `password`.
    pub fn new_user(&self, username: &str, password: &str) -> (r: Outgoing)
        ensures
            r.path@ == "/new"@,
            new_sent(r.body, username@, password@),
            shape(r.body, true) == Ok::<Kind, NnntpError>(Kind::New),
            str_field(env_of(r.body), "username"@) == Some(username@),
            str_field(env_of(r.body), "password"@) == Some(password@),
    {
        let mut fs: Vec<(String, Json)> = Vec::new();
        fs.push(entry("type", text("new")));
        fs.push(entry("username", text(username)));
        fs.push(entry("password", text(password)));
        proof {
            lemma_literals();
            reveal_with_fuel(member_from, 4);
        }
        Outgoing { path: String::from_str("/new"), body: wrap(Json::Object(fs)) }
    }
}

/// What a client reports for the status of a post, comment or registration reply.
pub fn outcome(code: u16) -> (r: Result<(), String>)
    ensures
        match outcome_spec(code) {
            Ok(()) => r is Ok,
            Err(m) => r matches Err(s) && s@ == m,
        },
{
    if code == 200 {
        Ok(())
    } else if code == 400 {
        Err(String::from_str("Invalid request"))
    } else if code == 401 {
        Err(String::from_str("Unauthorized"))
    } else {
        Err(String::from_str("Unknown error"))
    }
}

/// What a client reports for a list reply, from the members of its body.
pub fn read_listing(other: &Json) -> (r: Result<Posts, String>)
    ensures
        match decode_listing_spec(*other) {
            Some(l) => r matches Ok(p) && p.posts@.map_values(|q: Post| q@) == l.0 && p.group@ == l.1,
            None => r matches Err(m) && m@ == "Invalid response"@,
        },
{
    match decode_listing(other) {
        Ok(p) => Ok(p),
        Err(_) => Err(String::from_str("Invalid response")),
    }
}

} // verus!
