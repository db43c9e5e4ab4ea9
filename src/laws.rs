use vstd::prelude::*;
use crate::auth::bcrypt_verdict;
use crate::error::NnntpError;
use crate::json::Json;
use crate::store::{comments_on, posts_in, BoardView, CommentRow, PostRow};
use crate::wire::{
    decode_comments_spec, decode_listing_spec, decode_post_spec, decode_posts_spec, no_posts,
    received_comment, received_post, wire_comment, wire_listing, wire_post,
};

verus! {

/// Every post that `posts_in` keeps has an id below `bound` when every post does.
proof fn lemma_posts_in_bounded(posts: Seq<PostRow>, group: Seq<char>, bound: int)
    requires
        forall|i: int| 0 <= i < posts.len() ==> #[trigger] posts[i].id < bound,
    ensures
        forall|i: int| 0 <= i < posts_in(posts, group).len() ==> #[trigger] posts_in(posts, group)[i].id < bound,
    decreases posts.len(),
{
    if posts.len() > 0 {
        let rest = posts.drop_last();
        assert forall|i: int| 0 <= i < rest.len() implies #[trigger] rest[i].id < bound by {
            assert(rest[i] == posts[i]);
        }
        lemma_posts_in_bounded(rest, group, bound);
        let r = posts_in(rest, group);
        assert(posts.last().id < bound);
        if posts.last().group == group {
            assert(posts_in(posts, group) == r.push(posts.last()));
            assert forall|i: int| 0 <= i < r.len() + 1 implies #[trigger] r.push(posts.last())[i].id
                < bound by {
                if i < r.len() {
                    assert(r.push(posts.last())[i] == r[i]);
                }
            }
        }
    }
}

/// Registering a name twice: once a name is stored with a digest, it is
/// taken, so by the contract of `Board::register` a second registration is
/// refused as a duplicate and changes nothing. The name keeps the digest of
/// the first registration, and a password that digest verifies still
/// authenticates.
pub proof fn lemma_register_twice(v: BoardView, name: Seq<char>, digest: Seq<char>, password: Seq<char>)
    requires
        v.wf(),
        !v.registered(name),
    ensures
        v.with_user(name, digest).wf(),
        v.with_user(name, digest).registered(name),
        v.with_user(name, digest).digest_of(name) == Some(digest),
        bcrypt_verdict(password, digest) == Some(true) ==> v.with_user(name, digest).credentials(name, password)
            is Ok,
{
    crate::store::lemma_with_user(v, name, digest);
}

/// A post by an author whose password checks out gets the next id, and the
/// group's listing then ends with exactly that post, the only one with its id,
/// after the posts it held before.
pub proof fn lemma_post_then_list(
    v: BoardView,
    group: Seq<char>,
    subject: Seq<char>,
    body: Seq<char>,
    author: Seq<char>,
    password: Seq<char>,
    email: Seq<char>,
)
    requires
        v.wf(),
        v.credentials(author, password) is Ok,
        v.next_id < i32::MAX,
    ensures
        v.post_outcome(v.credentials(author, password)) == Ok::<int, NnntpError>(v.next_id),
        ({
            let after = v.with_post(v.new_post(group, subject, body, author, email));
            let l = after.listing(group);
            &&& l.len() == v.listing(group).len() + 1
            &&& l.last().0.id == v.next_id
            &&& l.last().0.subject == subject
            &&& l.last().0.body == body
            &&& forall|i: int| 0 <= i < l.len() - 1 ==> #[trigger] l[i].0.id != v.next_id
        }),
{
    let row = v.new_post(group, subject, body, author, email);
    let after = v.with_post(row);
    assert(after.posts.drop_last() =~= v.posts);
    assert(posts_in(after.posts, group) == posts_in(v.posts, group).push(row));
    lemma_posts_in_bounded(v.posts, group, v.next_id);
    let l = after.listing(group);
    assert forall|i: int| 0 <= i < l.len() - 1 implies #[trigger] l[i].0.id != v.next_id by {
        assert(l[i].0 == posts_in(v.posts, group)[i]);
    }
}

/// A post whose author's password is refused is itself refused as by an
/// invalid user, and so stores nothing.
pub proof fn lemma_wrong_password(v: BoardView, author: Seq<char>, password: Seq<char>)
    requires
        v.wf(),
        v.registered(author),
        bcrypt_verdict(password, v.digest_of(author).unwrap()) == Some(false),
    ensures
        v.credentials(author, password) == Err::<(), NnntpError>(NnntpError::InvalidUser),
        v.post_outcome(v.credentials(author, password)) == Err::<int, NnntpError>(NnntpError::InvalidUser),
{
}

/// A comment on post `parent` leaves every listing's posts as they were and
/// appends the comment, last, to the comments of each post with that id;
/// the other posts keep their comments.
pub proof fn lemma_comment_then_list(v: BoardView, group: Seq<char>, row: CommentRow)
    requires
        v.wf(),
    ensures
        ({
            let before = v.listing(group);
            let l = v.with_comment(row).listing(group);
            &&& l.len() == before.len()
            &&& forall|i: int|
                0 <= i < l.len() ==> (#[trigger] l[i]).0 == before[i].0 && l[i].1 == if before[i].0.id
                    == row.parent_id {
                    before[i].1.push(row)
                } else {
                    before[i].1
                }
        }),
{
    let after = v.with_comment(row);
    assert(after.comments.drop_last() =~= v.comments);
    assert forall|id: int| #[trigger] comments_on(after.comments, id) == if id == row.parent_id {
        comments_on(v.comments, id).push(row)
    } else {
        comments_on(v.comments, id)
    } by {}
}

proof fn lemma_comments_round_trip(a: Seq<Json>, cs: Seq<CommentRow>)
    requires
        a.len() == cs.len(),
        forall|i: int| 0 <= i < a.len() ==> wire_comment(#[trigger] a[i], cs[i]),
    ensures
        decode_comments_spec(a) == Some(cs.map_values(|c: CommentRow| received_comment(c))),
    decreases a.len(),
{
    if a.len() > 0 {
        let a2 = a.drop_last();
        let c2 = cs.drop_last();
        assert forall|i: int| 0 <= i < a2.len() implies wire_comment(#[trigger] a2[i], c2[i]) by {
            assert(a2[i] == a[i]);
        }
        lemma_comments_round_trip(a2, c2);
        assert(wire_comment(a[a.len() - 1], cs[a.len() - 1]));
        assert(cs.map_values(|c: CommentRow| received_comment(c)) =~= c2.map_values(
            |c: CommentRow| received_comment(c),
        ).push(received_comment(cs.last())));
    }
}

/// Decoding the wire object of a post gives back its id, group, subject, body,
/// author, email and its comments in order.
pub proof fn lemma_round_trip(j: Json, l: (PostRow, Seq<CommentRow>))
    requires
        wire_post(j, l),
        i32::MIN <= l.0.id <= i32::MAX,
    ensures
        decode_post_spec(j) == Some(received_post(l)),
{
    let a = field_array(j);
    lemma_comments_round_trip(a, l.1);
}

/// The comments array of a post's wire object.
spec fn field_array(j: Json) -> Seq<Json> {
    match crate::json::field(j, "comments"@) {
        Some(Json::Array(a)) => a@,
        _ => Seq::empty(),
    }
}

proof fn lemma_posts_round_trip(a: Seq<Json>, ls: Seq<(PostRow, Seq<CommentRow>)>)
    requires
        a.len() == ls.len(),
        forall|i: int| 0 <= i < a.len() ==> wire_post(#[trigger] a[i], ls[i]),
        forall|i: int| 0 <= i < ls.len() ==> i32::MIN <= (#[trigger] ls[i]).0.id <= i32::MAX,
    ensures
        decode_posts_spec(a) == Some(ls.map_values(|l: (PostRow, Seq<CommentRow>)| received_post(l))),
    decreases a.len(),
{
    if a.len() > 0 {
        let a2 = a.drop_last();
        let l2 = ls.drop_last();
        assert forall|i: int| 0 <= i < a2.len() implies wire_post(#[trigger] a2[i], l2[i]) by {
            assert(a2[i] == a[i]);
        }
        assert forall|i: int| 0 <= i < l2.len() implies i32::MIN <= (#[trigger] l2[i]).0.id <= i32::MAX by {
            assert(l2[i] == ls[i]);
        }
        lemma_posts_round_trip(a2, l2);
        let n = a.len() - 1;
        assert(wire_post(a[n], ls[n]));
        assert(i32::MIN <= ls[n].0.id <= i32::MAX);
        lemma_round_trip(a[n], ls[n]);
        assert(ls.map_values(|l: (PostRow, Seq<CommentRow>)| received_post(l)) =~= l2.map_values(
            |l: (PostRow, Seq<CommentRow>)| received_post(l),
        ).push(received_post(ls.last())));
    }
}

/// Decoding a list response gives back every post in order, labelled with
/// the first post's group, or with the sentinel label when there is none.
pub proof fn lemma_listing_round_trip(j: Json, ls: Seq<(PostRow, Seq<CommentRow>)>)
    requires
        wire_listing(j, ls),
        forall|i: int| 0 <= i < ls.len() ==> i32::MIN <= (#[trigger] ls[i]).0.id <= i32::MAX,
    ensures
        decode_listing_spec(j) == Some(
            (
                ls.map_values(|l: (PostRow, Seq<CommentRow>)| received_post(l)),
                if ls.len() == 0 {
                    no_posts()
                } else {
                    ls[0].0.group
                },
            ),
        ),
{
    let a = match crate::json::field(j, "nnntp"@) {
        Some(Json::Array(a)) => a@,
        _ => Seq::empty(),
    };
    lemma_posts_round_trip(a, ls);
}

} // verus!
