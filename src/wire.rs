use vstd::prelude::*;
use crate::error::NnntpError;
use crate::json::{entry, field, member_from, str_field, text, Json};
use crate::store::{CommentRow, Listed, PostRow, StoredComment};

verus! {

/// A comment as the client sees it.
pub struct Comment {
    pub body: String,
    pub author: String,
    pub author_email: Option<String>,
}

/// A post as the client sees it, with its comments in order.
pub struct Post {
    pub id: i32,
    pub group: String,
    pub subject: String,
    pub body: String,
    pub author: String,
    pub author_email: Option<String>,
    pub comments: Vec<Comment>,
}

/// A decoded listing, and the group label it is shown under.
pub struct Posts {
    pub posts: Vec<Post>,
    pub group: String,
}

pub struct CommentV {
    pub body: Seq<char>,
    pub author: Seq<char>,
    pub author_email: Option<Seq<char>>,
}

pub struct PostV {
    pub id: int,
    pub group: Seq<char>,
    pub subject: Seq<char>,
    pub body: Seq<char>,
    pub author: Seq<char>,
    pub author_email: Option<Seq<char>>,
    pub comments: Seq<CommentV>,
}

pub open spec fn opt_view(s: Option<String>) -> Option<Seq<char>> {
    match s {
        Some(t) => Some(t@),
        None => None,
    }
}

impl View for Comment {
    type V = CommentV;

    open spec fn view(&self) -> CommentV {
        CommentV { body: self.body@, author: self.author@, author_email: opt_view(self.author_email) }
    }
}

impl View for Post {
    type V = PostV;

    open spec fn view(&self) -> PostV {
        PostV {
            id: self.id as int,
            group: self.group@,
            subject: self.subject@,
            body: self.body@,
            author: self.author@,
            author_email: opt_view(self.author_email),
            comments: self.comments@.map_values(|c: Comment| c@),
        }
    }
}

/// The group label a listing gets when it holds no post.
pub open spec fn no_posts() -> Seq<char> {
    "no_posts"@
}

/// A comment read from its wire object: body and author are strings; an
/// email that is not a string is taken as absent.
pub open spec fn decode_comment_spec(j: Json) -> Option<CommentV> {
    match (str_field(j, "body"@), str_field(j, "author"@)) {
        (Some(body), Some(author)) => Some(
            CommentV { body, author, author_email: str_field(j, "author_email"@) },
        ),
        _ => None,
    }
}

/// A sequence of comment objects, all of which must decode.
pub open spec fn decode_comments_spec(cs: Seq<Json>) -> Option<Seq<CommentV>>
    decreases cs.len(),
{
    if cs.len() == 0 {
        Some(Seq::empty())
    } else {
        match (decode_comments_spec(cs.drop_last()), decode_comment_spec(cs.last())) {
            (Some(r), Some(c)) => Some(r.push(c)),
            _ => None,
        }
    }
}

/// A post read from its wire object.
pub open spec fn decode_post_spec(j: Json) -> Option<PostV> {
    match (
        field(j, "id"@),
        str_field(j, "group_name"@),
        str_field(j, "subject"@),
        str_field(j, "body"@),
        str_field(j, "author"@),
        field(j, "comments"@),
    ) {
        (Some(Json::Number(id)), Some(group), Some(subject), Some(body), Some(author), Some(
            Json::Array(cs),
        )) => if i32::MIN <= id <= i32::MAX {
            match decode_comments_spec(cs@) {
                Some(comments) => Some(
                    PostV {
                        id: id as int,
                        group,
                        subject,
                        body,
                        author,
                        author_email: str_field(j, "author_email"@),
                        comments,
                    },
                ),
                None => None,
            }
        } else {
            None
        },
        _ => None,
    }
}

pub open spec fn decode_posts_spec(ps: Seq<Json>) -> Option<Seq<PostV>>
    decreases ps.len(),
{
    if ps.len() == 0 {
        Some(Seq::empty())
    } else {
        match (decode_posts_spec(ps.drop_last()), decode_post_spec(ps.last())) {
            (Some(r), Some(p)) => Some(r.push(p)),
            _ => None,
        }
    }
}

/// A list response read from the members of its body: the posts under
/// `nnntp`, labelled with the first post's group, or with the sentinel label
/// when there is none. `None` where anything fails to decode.
pub open spec fn decode_listing_spec(other: Json) -> Option<(Seq<PostV>, Seq<char>)> {
    match field(other, "nnntp"@) {
        Some(Json::Array(ps)) => match decode_posts_spec(ps@) {
            Some(posts) => Some(
                (posts, if posts.len() == 0 {
                    no_posts()
                } else {
                    posts[0].group
                }),
            ),
            None => None,
        },
        _ => None,
    }
}

proof fn lemma_comments_prefix(cs: Seq<Json>, k: int)
    requires
        0 <= k <= cs.len(),
        decode_comments_spec(cs.take(k)) is None,
    ensures
        decode_comments_spec(cs) is None,
    decreases cs.len() - k,
{
    if k < cs.len() {
        assert(cs.take(k + 1).drop_last() =~= cs.take(k));
        lemma_comments_prefix(cs, k + 1);
    } else {
        assert(cs.take(k) =~= cs);
    }
}

proof fn lemma_posts_prefix(ps: Seq<Json>, k: int)
    requires
        0 <= k <= ps.len(),
        decode_posts_spec(ps.take(k)) is None,
    ensures
        decode_posts_spec(ps) is None,
    decreases ps.len() - k,
{
    if k < ps.len() {
        assert(ps.take(k + 1).drop_last() =~= ps.take(k));
        lemma_posts_prefix(ps, k + 1);
    } else {
        assert(ps.take(k) =~= ps);
    }
}

pub fn decode_comment(j: &Json) -> (r: Option<Comment>)
    ensures
        match r {
            Some(c) => decode_comment_spec(*j) == Some(c@),
            None => decode_comment_spec(*j) is None,
        },
{
    let body = j.get_str("body")?;
    let author = j.get_str("author")?;
    let author_email = j.get_str("author_email");
    Some(Comment { body, author, author_email })
}

#[verifier::loop_isolation(false)]
pub fn decode_post(j: &Json) -> (r: Option<Post>)
    ensures
        match r {
            Some(p) => decode_post_spec(*j) == Some(p@),
            None => decode_post_spec(*j) is None,
        },
{
    let id = match j.get("id") {
        Some(Json::Number(n)) => *n,
        _ => return None,
    };
    let group = j.get_str("group_name")?;
    let subject = j.get_str("subject")?;
    let body = j.get_str("body")?;
    let author = j.get_str("author")?;
    let cs = match j.get("comments") {
        Some(Json::Array(cs)) => cs,
        _ => return None,
    };
    if id < i32::MIN as i64 || id > i32::MAX as i64 {
        return None;
    }
    let author_email = j.get_str("author_email");
    let mut comments: Vec<Comment> = Vec::new();
    let mut i: usize = 0;
    while i < cs.len()
        invariant
            i <= cs@.len(),
            decode_comments_spec(cs@.take(i as int)) == Some(comments@.map_values(|c: Comment| c@)),
        decreases cs@.len() - i,
    {
        let ghost prev = comments@;
        assert(cs@.take(i + 1).drop_last() =~= cs@.take(i as int));
        assert(cs@.take(i + 1).last() == cs@[i as int]);
        match decode_comment(&cs[i]) {
            Some(c) => {
                comments.push(c);
                assert(comments@.map_values(|c: Comment| c@) =~= prev.map_values(|c: Comment| c@).push(
                    comments@.last()@,
                ));
            },
            None => {
                proof {
                    lemma_comments_prefix(cs@, i + 1);
                }
                return None;
            },
        }
        i = i + 1;
    }
    assert(cs@.take(cs@.len() as int) =~= cs@);
    Some(Post { id: id as i32, group, subject, body, author, author_email, comments })
}

/// Reads a list response from the members of its body.
#[verifier::loop_isolation(false)]
pub fn decode_listing(other: &Json) -> (r: Result<Posts, NnntpError>)
    ensures
        match r {
            Ok(p) => decode_listing_spec(*other) == Some(
                (p.posts@.map_values(|q: Post| q@), p.group@),
            ),
            Err(e) => decode_listing_spec(*other) is None && e == NnntpError::InvalidResponse,
        },
{
    let ps = match other.get("nnntp") {
        Some(Json::Array(ps)) => ps,
        _ => return Err(NnntpError::InvalidResponse),
    };
    let mut posts: Vec<Post> = Vec::new();
    let mut i: usize = 0;
    while i < ps.len()
        invariant
            i <= ps@.len(),
            decode_posts_spec(ps@.take(i as int)) == Some(posts@.map_values(|q: Post| q@)),
        decreases ps@.len() - i,
    {
        let ghost prev = posts@;
        assert(ps@.take(i + 1).drop_last() =~= ps@.take(i as int));
        assert(ps@.take(i + 1).last() == ps@[i as int]);
        match decode_post(&ps[i]) {
            Some(p) => {
                posts.push(p);
                assert(posts@.map_values(|q: Post| q@) =~= prev.map_values(|q: Post| q@).push(
                    posts@.last()@,
                ));
            },
            None => {
                proof {
                    lemma_posts_prefix(ps@, i + 1);
                }
                return Err(NnntpError::InvalidResponse);
            },
        }
        i = i + 1;
    }
    assert(ps@.take(ps@.len() as int) =~= ps@);
    let group = if posts.len() == 0 {
        String::from_str("no_posts")
    } else {
        assert(posts@.map_values(|q: Post| q@)[0].group == posts@[0].group@);
        posts[0].group.clone()
    };
    Ok(Posts { posts, group })
}

/// The wire object of a stored comment: exactly its body, author and email.
pub open spec fn wire_comment(j: Json, c: CommentRow) -> bool {
    &&& j matches Json::Object(fs) && fs@.len() == 3
    &&& str_field(j, "body"@) == Some(c.body)
    &&& str_field(j, "author"@) == Some(c.author)
    &&& str_field(j, "author_email"@) == Some(c.author_email)
}

/// The wire object of a stored post with its comments: exactly its id, group,
/// subject, body, author, email and the array of its comments' objects.
pub open spec fn wire_post(j: Json, l: (PostRow, Seq<CommentRow>)) -> bool {
    let p = l.0;
    &&& j matches Json::Object(fs) && fs@.len() == 7
    &&& field(j, "id"@) == Some(Json::Number(p.id as i64))
    &&& str_field(j, "group_name"@) == Some(p.group)
    &&& str_field(j, "subject"@) == Some(p.subject)
    &&& str_field(j, "body"@) == Some(p.body)
    &&& str_field(j, "author"@) == Some(p.author)
    &&& str_field(j, "author_email"@) == Some(p.author_email)
    &&& field(j, "comments"@) matches Some(Json::Array(a)) && a@.len() == l.1.len() && forall|i: int|
        0 <= i < a@.len() ==> wire_comment(#[trigger] a@[i], l.1[i])
}

/// The body members of a list response: `nnntp` holds the array of the posts' objects.
pub open spec fn wire_listing(j: Json, ls: Seq<(PostRow, Seq<CommentRow>)>) -> bool {
    &&& j matches Json::Object(fs) && fs@.len() == 1
    &&& field(j, "nnntp"@) matches Some(Json::Array(a)) && a@.len() == ls.len() && forall|i: int|
        0 <= i < a@.len() ==> wire_post(#[trigger] a@[i], ls[i])
}

/// What the client reads back of a stored comment.
pub open spec fn received_comment(c: CommentRow) -> CommentV {
    CommentV { body: c.body, author: c.author, author_email: Some(c.author_email) }
}

/// What the client reads back of a stored post with its comments.
pub open spec fn received_post(l: (PostRow, Seq<CommentRow>)) -> PostV {
    PostV {
        id: l.0.id,
        group: l.0.group,
        subject: l.0.subject,
        body: l.0.body,
        author: l.0.author,
        author_email: Some(l.0.author_email),
        comments: l.1.map_values(|c: CommentRow| received_comment(c)),
    }
}

/// The keys of a post's and a comment's wire objects are pairwise distinct.
proof fn lemma_keys_distinct()
    ensures
        "id"@ != "group_name"@ && "id"@ != "subject"@ && "id"@ != "body"@ && "id"@ != "author"@
            && "id"@ != "author_email"@ && "id"@ != "comments"@,
        "group_name"@ != "subject"@ && "group_name"@ != "body"@ && "group_name"@ != "author"@
            && "group_name"@ != "author_email"@ && "group_name"@ != "comments"@,
        "subject"@ != "body"@ && "subject"@ != "author"@ && "subject"@ != "author_email"@
            && "subject"@ != "comments"@,
        "body"@ != "author"@ && "body"@ != "author_email"@ && "body"@ != "comments"@,
        "author"@ != "author_email"@ && "author"@ != "comments"@,
        "author_email"@ != "comments"@,
{
    reveal_strlit("id");
    reveal_strlit("group_name");
    reveal_strlit("subject");
    reveal_strlit("body");
    reveal_strlit("author");
    reveal_strlit("author_email");
    reveal_strlit("comments");
    assert("id"@[0] == 'i');
    assert("group_name"@[0] == 'g');
    assert("subject"@[0] == 's');
    assert("body"@[0] == 'b');
    assert("author"@[0] == 'a');
    assert("author_email"@[0] == 'a');
    assert("comments"@[0] == 'c');
    assert("author"@.len() == 6);
    assert("author_email"@.len() == 12);
}

/// The wire object of a stored comment.
pub fn encode_comment(c: &StoredComment) -> (r: Json)
    ensures
        wire_comment(r, c@),
{
    let mut fs: Vec<(String, Json)> = Vec::new();
    fs.push(entry("body", text(c.body.as_str())));
    fs.push(entry("author", text(c.author.as_str())));
    fs.push(entry("author_email", text(c.author_email.as_str())));
    proof {
        reveal_strlit("body");
        reveal_strlit("author");
        reveal_strlit("author_email");
        reveal_with_fuel(member_from, 4);
        lemma_keys_distinct();
    }
    Json::Object(fs)
}

/// The wire object of a stored post with its comments.
pub fn encode_post(l: &Listed) -> (r: Json)
    ensures
        wire_post(r, l@),
{
    let mut cs: Vec<Json> = Vec::new();
    let mut i: usize = 0;
    while i < l.comments.len()
        invariant
            i <= l.comments@.len(),
            cs@.len() == i,
            forall|k: int| 0 <= k < i ==> wire_comment(#[trigger] cs@[k], l@.1[k]),
        decreases l.comments@.len() - i,
    {
        let c = encode_comment(&l.comments[i]);
        cs.push(c);
        i = i + 1;
    }
    let p = &l.post;
    let mut fs: Vec<(String, Json)> = Vec::new();
    fs.push(entry("id", Json::Number(p.id as i64)));
    fs.push(entry("group_name", text(p.group.as_str())));
    fs.push(entry("subject", text(p.subject.as_str())));
    fs.push(entry("body", text(p.body.as_str())));
    fs.push(entry("author", text(p.author.as_str())));
    fs.push(entry("author_email", text(p.author_email.as_str())));
    fs.push(entry("comments", Json::Array(cs)));
    proof {
        reveal_strlit("id");
        reveal_strlit("group_name");
        reveal_strlit("subject");
        reveal_strlit("body");
        reveal_strlit("author");
        reveal_strlit("author_email");
        reveal_strlit("comments");
        reveal_with_fuel(member_from, 8);
        lemma_keys_distinct();
    }
    Json::Object(fs)
}

/// The body members of a list response carrying `ls`.
pub fn encode_listing(ls: &Vec<Listed>) -> (r: Json)
    ensures
        wire_listing(r, ls@.map_values(|l: Listed| l@)),
{
    let mut ps: Vec<Json> = Vec::new();
    let mut i: usize = 0;
    while i < ls.len()
        invariant
            i <= ls@.len(),
            ps@.len() == i,
            forall|k: int| 0 <= k < i ==> wire_post(#[trigger] ps@[k], ls@[k]@),
        decreases ls@.len() - i,
    {
        let p = encode_post(&ls[i]);
        ps.push(p);
        i = i + 1;
    }
    let mut fs: Vec<(String, Json)> = Vec::new();
    fs.push(entry("nnntp", Json::Array(ps)));
    proof {
        reveal_with_fuel(member_from, 2);
    }
    Json::Object(fs)
}

} // verus!
