use vstd::prelude::*;
use crate::error::{Field, NnntpError};
use crate::json::{field, has, str_field, text_eq, Json};

verus! {

/// The four request kinds.
#[derive(PartialEq, Eq, Structural, Clone, Copy, Debug)]
pub enum Kind {
    Post,
    Comment,
    List,
    New,
}

/// The credentials and address that a post or a comment carries.
pub struct Author {
    pub username: String,
    pub password: String,
    pub email: String,
}

/// A request with every member it needs, typed.
pub enum Request {
    Post { group: String, subject: String, body: String, author: Author },
    Comment { parent: i32, body: String, author: Author },
    List { group: String },
    New { username: String, password: String },
}

impl Request {
    pub open spec fn kind(self) -> Kind {
        match self {
            Request::Post { .. } => Kind::Post,
            Request::Comment { .. } => Kind::Comment,
            Request::List { .. } => Kind::List,
            Request::New { .. } => Kind::New,
        }
    }
}

/// The kind that a request path selects.
pub open spec fn path_kind(path: Seq<char>) -> Option<Kind> {
    if path == "/post"@ {
        Some(Kind::Post)
    } else if path == "/comment"@ {
        Some(Kind::Comment)
    } else if path == "/list"@ {
        Some(Kind::List)
    } else if path == "/new"@ {
        Some(Kind::New)
    } else {
        None
    }
}

pub fn kind_of_path(path: &str) -> (r: Option<Kind>)
    ensures
        r == path_kind(path@),
{
    if text_eq(path, "/post") {
        Some(Kind::Post)
    } else if text_eq(path, "/comment") {
        Some(Kind::Comment)
    } else if text_eq(path, "/list") {
        Some(Kind::List)
    } else if text_eq(path, "/new") {
        Some(Kind::New)
    } else {
        None
    }
}

/// The member `f` of `j`, which must be present, and when `typed`, a string.
pub open spec fn leaf(j: Json, f: Field, typed: bool) -> bool {
    if typed {
        str_field(j, f.key()) is Some
    } else {
        has(j, f.key())
    }
}

/// A parent id: present, and when `typed`, an integer that fits an `i32`.
pub open spec fn id_ok(parent: Json, typed: bool) -> bool {
    match field(parent, "id"@) {
        None => false,
        Some(Json::Number(n)) => !typed || (i32::MIN <= n && n <= i32::MAX),
        Some(_) => !typed,
    }
}

/// The `author` block of a post or a comment.
pub open spec fn author_check(env: Json, typed: bool) -> Result<(), NnntpError> {
    match field(env, "author"@) {
        None => Err(NnntpError::MissingField(Field::Author)),
        Some(a) => if !leaf(a, Field::Username, typed) {
            Err(NnntpError::MissingField(Field::Username))
        } else if !leaf(a, Field::Password, typed) {
            Err(NnntpError::MissingField(Field::Password))
        } else if !leaf(a, Field::Email, typed) {
            Err(NnntpError::MissingField(Field::Email))
        } else {
            Ok(())
        },
    }
}

pub open spec fn post_check(env: Json, typed: bool) -> Result<(), NnntpError> {
    if !leaf(env, Field::Group, typed) {
        Err(NnntpError::MissingField(Field::Group))
    } else {
        match field(env, "post"@) {
            None => Err(NnntpError::MissingField(Field::Post)),
            Some(p) => if !leaf(p, Field::Subject, typed) {
                Err(NnntpError::MissingField(Field::Subject))
            } else if !leaf(p, Field::Body, typed) {
                Err(NnntpError::MissingField(Field::Body))
            } else {
                author_check(env, typed)
            },
        }
    }
}

pub open spec fn comment_check(env: Json, typed: bool) -> Result<(), NnntpError> {
    match field(env, "parent"@) {
        None => Err(NnntpError::MissingField(Field::Parent)),
        Some(p) => if !id_ok(p, typed) {
            Err(NnntpError::MissingField(Field::Id))
        } else {
            match field(env, "comment"@) {
                None => Err(NnntpError::MissingField(Field::Comment)),
                Some(c) => if !leaf(c, Field::Body, typed) {
                    Err(NnntpError::MissingField(Field::Body))
                } else {
                    author_check(env, typed)
                },
            }
        },
    }
}

pub open spec fn new_check(env: Json, typed: bool) -> Result<(), NnntpError> {
    if !leaf(env, Field::Username, typed) {
        Err(NnntpError::MissingField(Field::Username))
    } else if !leaf(env, Field::Password, typed) {
        Err(NnntpError::MissingField(Field::Password))
    } else {
        Ok(())
    }
}

pub open spec fn list_check(env: Json, typed: bool) -> Result<(), NnntpError> {
    if !leaf(env, Field::Group, typed) {
        Err(NnntpError::MissingField(Field::Group))
    } else {
        Ok(())
    }
}

/// The kind that the `type` discriminator of an envelope names.
pub open spec fn type_kind(env: Json) -> Option<Kind> {
    match field(env, "type"@) {
        Some(Json::Str(t)) => if t@ == "post"@ {
            Some(Kind::Post)
        } else if t@ == "comment"@ {
            Some(Kind::Comment)
        } else if t@ == "list"@ {
            Some(Kind::List)
        } else if t@ == "new"@ {
            Some(Kind::New)
        } else {
            None
        },
        _ => None,
    }
}

/// The outcome of checking the members that a request body must hold:
/// the kind it names, or the first thing missing. Presence alone is
/// checked unless `typed`, which also asks each member for its type.
pub open spec fn shape(body: Json, typed: bool) -> Result<Kind, NnntpError> {
    match field(body, "nnntp"@) {
        None => Err(NnntpError::MissingField(Field::Nnntp)),
        Some(env) => match type_kind(env) {
            None => Err(NnntpError::UnknownRequestType),
            Some(k) => {
                let c = match k {
                    Kind::Post => post_check(env, typed),
                    Kind::Comment => comment_check(env, typed),
                    Kind::List => list_check(env, typed),
                    Kind::New => new_check(env, typed),
                };
                match c {
                    Ok(()) => Ok(k),
                    Err(e) => Err(e),
                }
            },
        },
    }
}


fn leaf_ok(j: &Json, f: Field, typed: bool) -> (r: bool)
    ensures
        r == leaf(*j, f, typed),
{
    if typed {
        j.get_str(f.name()).is_some()
    } else {
        j.get(f.name()).is_some()
    }
}

fn id_present(parent: &Json, typed: bool) -> (r: bool)
    ensures
        r == id_ok(*parent, typed),
{
    match parent.get("id") {
        None => false,
        Some(Json::Number(n)) => !typed || (i32::MIN as i64 <= *n && *n <= i32::MAX as i64),
        Some(_) => !typed,
    }
}

fn check_author(env: &Json, typed: bool) -> (r: Result<(), NnntpError>)
    ensures
        r == author_check(*env, typed),
{
    match env.get("author") {
        None => Err(NnntpError::MissingField(Field::Author)),
        Some(a) => if !leaf_ok(a, Field::Username, typed) {
            Err(NnntpError::MissingField(Field::Username))
        } else if !leaf_ok(a, Field::Password, typed) {
            Err(NnntpError::MissingField(Field::Password))
        } else if !leaf_ok(a, Field::Email, typed) {
            Err(NnntpError::MissingField(Field::Email))
        } else {
            Ok(())
        },
    }
}

fn check_post(env: &Json, typed: bool) -> (r: Result<(), NnntpError>)
    ensures
        r == post_check(*env, typed),
{
    if !leaf_ok(env, Field::Group, typed) {
        Err(NnntpError::MissingField(Field::Group))
    } else {
        match env.get("post") {
            None => Err(NnntpError::MissingField(Field::Post)),
            Some(p) => if !leaf_ok(p, Field::Subject, typed) {
                Err(NnntpError::MissingField(Field::Subject))
            } else if !leaf_ok(p, Field::Body, typed) {
                Err(NnntpError::MissingField(Field::Body))
            } else {
                check_author(env, typed)
            },
        }
    }
}

fn check_comment(env: &Json, typed: bool) -> (r: Result<(), NnntpError>)
    ensures
        r == comment_check(*env, typed),
{
    match env.get("parent") {
        None => Err(NnntpError::MissingField(Field::Parent)),
        Some(p) => if !id_present(p, typed) {
            Err(NnntpError::MissingField(Field::Id))
        } else {
            match env.get("comment") {
                None => Err(NnntpError::MissingField(Field::Comment)),
                Some(c) => if !leaf_ok(c, Field::Body, typed) {
                    Err(NnntpError::MissingField(Field::Body))
                } else {
                    check_author(env, typed)
                },
            }
        },
    }
}

fn check_type(env: &Json) -> (r: Option<Kind>)
    ensures
        r == type_kind(*env),
{
    match env.get("type") {
        Some(Json::Str(t)) => if text_eq(t.as_str(), "post") {
            Some(Kind::Post)
        } else if text_eq(t.as_str(), "comment") {
            Some(Kind::Comment)
        } else if text_eq(t.as_str(), "list") {
            Some(Kind::List)
        } else if text_eq(t.as_str(), "new") {
            Some(Kind::New)
        } else {
            None
        },
        _ => None,
    }
}

fn check_shape(body: &Json, typed: bool) -> (r: Result<Kind, NnntpError>)
    ensures
        r == shape(*body, typed),
{
    match body.get("nnntp") {
        None => Err(NnntpError::MissingField(Field::Nnntp)),
        Some(env) => match check_type(env) {
            None => Err(NnntpError::UnknownRequestType),
            Some(k) => {
                let c = match k {
                    Kind::Post => check_post(env, typed),
                    Kind::Comment => check_comment(env, typed),
                    Kind::List => if !leaf_ok(env, Field::Group, typed) {
                        Err(NnntpError::MissingField(Field::Group))
                    } else {
                        Ok(())
                    },
                    Kind::New => if !leaf_ok(env, Field::Username, typed) {
                        Err(NnntpError::MissingField(Field::Username))
                    } else if !leaf_ok(env, Field::Password, typed) {
                        Err(NnntpError::MissingField(Field::Password))
                    } else {
                        Ok(())
                    },
                };
                match c {
                    Ok(()) => Ok(k),
                    Err(e) => Err(e),
                }
            },
        },
    }
}

/// The envelope of a request: the nested value under `key`, which must be there.
pub open spec fn env_of(body: Json) -> Json {
    field(body, "nnntp"@).unwrap()
}

/// The string at `outer.inner` of an envelope.
pub open spec fn nested_str(env: Json, outer: Seq<char>, inner: Seq<char>) -> Option<Seq<char>> {
    match field(env, outer) {
        Some(o) => str_field(o, inner),
        None => None,
    }
}

pub open spec fn author_holds(a: Author, env: Json) -> bool {
    &&& nested_str(env, "author"@, "username"@) == Some(a.username@)
    &&& nested_str(env, "author"@, "password"@) == Some(a.password@)
    &&& nested_str(env, "author"@, "email"@) == Some(a.email@)
}

/// `req` holds exactly the members of the request body `body`.
pub open spec fn request_holds(req: Request, body: Json) -> bool {
    let env = env_of(body);
    match req {
        Request::Post { group, subject, body: text, author } => {
            &&& str_field(env, "group"@) == Some(group@)
            &&& nested_str(env, "post"@, "subject"@) == Some(subject@)
            &&& nested_str(env, "post"@, "body"@) == Some(text@)
            &&& author_holds(author, env)
        },
        Request::Comment { parent, body: text, author } => {
            &&& field(env, "parent"@) is Some
            &&& field(field(env, "parent"@).unwrap(), "id"@) == Some(Json::Number(parent as i64))
            &&& nested_str(env, "comment"@, "body"@) == Some(text@)
            &&& author_holds(author, env)
        },
        Request::List { group } => str_field(env, "group"@) == Some(group@),
        Request::New { username, password } => {
            &&& str_field(env, "username"@) == Some(username@)
            &&& str_field(env, "password"@) == Some(password@)
        },
    }
}

fn nested(env: &Json, outer: &str, inner: &str) -> (r: Option<String>)
    ensures
        match r {
            Some(s) => nested_str(*env, outer@, inner@) == Some(s@),
            None => nested_str(*env, outer@, inner@) is None,
        },
{
    match env.get(outer) {
        Some(o) => o.get_str(inner),
        None => None,
    }
}

/// The integer stored under `key`, if there is one.
fn int_member(j: &Json, key: &str) -> (r: Option<i64>)
    ensures
        match r {
            Some(n) => field(*j, key@) == Some(Json::Number(n)),
            None => !(field(*j, key@) matches Some(Json::Number(_))),
        },
{
    match j.get(key) {
        Some(Json::Number(n)) => Some(*n),
        _ => None,
    }
}

fn take_author(env: &Json) -> (r: Option<Author>)
    ensures
        match r {
            Some(a) => author_holds(a, *env),
            None => !(nested_str(*env, "author"@, "username"@) is Some
                && nested_str(*env, "author"@, "password"@) is Some
                && nested_str(*env, "author"@, "email"@) is Some),
        },
{
    let username = nested(env, "author", "username")?;
    let password = nested(env, "author", "password")?;
    let email = nested(env, "author", "email")?;
    Some(Author { username, password, email })
}

/// A request as received: the members of its body besides the content, one of
/// which, `nnntp`, holds the envelope.
pub struct NnntpRequest {
    pub body: Json,
}

impl NnntpRequest {
    pub fn new(body: Json) -> (r: NnntpRequest)
        ensures
            r.body == body,
    {
        NnntpRequest { body }
    }

    /// Checks that every member the request's kind requires is present.
    /// Types are not checked here.
    pub fn validate(&self) -> (r: Result<(), NnntpError>)
        ensures
            match shape(self.body, false) {
                Ok(_) => r is Ok,
                Err(e) => r == Err::<(), NnntpError>(e),
            },
    {
        match check_shape(&self.body, false) {
            Ok(_) => Ok(()),
            Err(e) => Err(e),
        }
    }

    /// Reads the request into its typed form, or names the first member that
    /// is absent or of the wrong type.
    pub fn parse(&self) -> (r: Result<Request, NnntpError>)
        ensures
            match shape(self.body, true) {
                Ok(k) => r matches Ok(req) && req.kind() == k && request_holds(req, self.body),
                Err(e) => r matches Err(e2) && e2 == e,
            },
    {
        let k = match check_shape(&self.body, true) {
            Ok(k) => k,
            Err(e) => return Err(e),
        };
        let env = self.body.get("nnntp").unwrap();
        match k {
            Kind::Post => {
                let group = env.get_str("group").unwrap();
                let subject = nested(env, "post", "subject").unwrap();
                let body = nested(env, "post", "body").unwrap();
                let author = take_author(env).unwrap();
                Ok(Request::Post { group, subject, body, author })
            },
            Kind::Comment => {
                let parent = int_member(env.get("parent").unwrap(), "id").unwrap() as i32;
                let body = nested(env, "comment", "body").unwrap();
                let author = take_author(env).unwrap();
                Ok(Request::Comment { parent, body, author })
            },
            Kind::List => {
                let group = env.get_str("group").unwrap();
                Ok(Request::List { group })
            },
            Kind::New => {
                let username = env.get_str("username").unwrap();
                let password = env.get_str("password").unwrap();
                Ok(Request::New { username, password })
            },
        }
    }
}

} // verus!
