use nnntp::error::NnntpError;
use nnntp::store::{Board, StoredComment, StoredPost};

fn board_with_user(name: &str, password: &str) -> Board {
    let mut b = Board::new();
    assert_eq!(b.register(name, password), Ok(()));
    b
}

#[test]
fn register_twice_keeps_first_credential() {
    let mut b = board_with_user("alice", "secret");
    let digest = b.accounts()[0].digest.clone();
    assert_eq!(b.register("alice", "other"), Err(NnntpError::DuplicateUser));
    assert_eq!(b.accounts().len(), 1);
    assert_eq!(b.accounts()[0].digest, digest);
    assert_eq!(b.authenticate("alice", "secret"), Ok(()));
    assert_eq!(b.authenticate("alice", "other"), Err(NnntpError::InvalidUser));
}

#[test]
fn stored_digest_is_not_the_password() {
    let b = board_with_user("alice", "secret");
    assert_ne!(b.accounts()[0].digest, "secret");
    assert!(b.accounts()[0].digest.starts_with("$2"));
}

#[test]
fn post_then_list_shows_one_post() {
    let mut b = board_with_user("alice", "secret");
    let id = b.create_post("g", "S", "B", "alice", "secret", "a@x").unwrap();
    assert_eq!(id, 1);
    let l = b.list_group("g");
    assert_eq!(l.len(), 1);
    assert_eq!(l[0].post.id, id);
    assert_eq!(l[0].post.subject, "S");
    assert_eq!(l[0].post.body, "B");
    assert_eq!(l[0].post.author, "alice");
    assert_eq!(l[0].post.author_email, "a@x");
    assert!(l[0].comments.is_empty());
}

#[test]
fn ids_increase_even_for_identical_posts() {
    let mut b = board_with_user("alice", "secret");
    let first = b.create_post("g", "S", "B", "alice", "secret", "a@x").unwrap();
    let second = b.create_post("g", "S", "B", "alice", "secret", "a@x").unwrap();
    assert_eq!((first, second), (1, 2));
    let l = b.list_group("g");
    assert_eq!(l.iter().map(|x| x.post.id).collect::<Vec<_>>(), vec![1, 2]);
}

#[test]
fn wrong_password_creates_nothing() {
    let mut b = board_with_user("alice", "secret");
    b.create_post("g", "S", "B", "alice", "secret", "a@x").unwrap();
    let before = b.list_group("g").len();
    assert_eq!(b.create_post("g", "S2", "B2", "alice", "wrong", "a@x"), Err(NnntpError::InvalidUser));
    assert_eq!(b.list_group("g").len(), before);
    assert_eq!(b.posts().len(), 1);
}

#[test]
fn unknown_user_is_refused_without_panic() {
    let mut b = Board::new();
    assert_eq!(b.create_post("g", "S", "B", "nobody", "pw", "e"), Err(NnntpError::UnknownUser));
    assert_eq!(b.add_comment(1, "c", "nobody", "pw", "e"), Err(NnntpError::UnknownUser));
    assert_eq!(b.authenticate("nobody", "pw"), Err(NnntpError::UnknownUser));
    assert!(b.posts().is_empty());
    assert!(b.comments().is_empty());
}

#[test]
fn comments_appear_in_creation_order() {
    let mut b = board_with_user("alice", "secret");
    let id = b.create_post("g", "S", "B", "alice", "secret", "a@x").unwrap();
    let other = b.create_post("g", "T", "C", "alice", "secret", "a@x").unwrap();
    assert_eq!(b.add_comment(id, "first", "alice", "secret", "a@x"), Ok(()));
    assert_eq!(b.add_comment(other, "elsewhere", "alice", "secret", "a@x"), Ok(()));
    assert_eq!(b.add_comment(id, "second", "alice", "secret", "a@x"), Ok(()));
    let l = b.list_group("g");
    let bodies: Vec<&str> = l[0].comments.iter().map(|c| c.body.as_str()).collect();
    assert_eq!(bodies, vec!["first", "second"]);
    assert_eq!(l[1].comments.len(), 1);
    assert_eq!(l[1].comments[0].body, "elsewhere");
}

#[test]
fn comment_with_wrong_password_is_refused() {
    let mut b = board_with_user("alice", "secret");
    let id = b.create_post("g", "S", "B", "alice", "secret", "a@x").unwrap();
    assert_eq!(b.add_comment(id, "c", "alice", "bad", "a@x"), Err(NnntpError::InvalidUser));
    assert!(b.list_group("g")[0].comments.is_empty());
}

#[test]
fn comment_on_missing_post_is_stored() {
    let mut b = board_with_user("alice", "secret");
    assert_eq!(b.add_comment(42, "orphan", "alice", "secret", "a@x"), Ok(()));
    assert_eq!(b.comments().len(), 1);
    assert_eq!(b.comments()[0].parent_id, 42);
}

#[test]
fn empty_group_lists_nothing() {
    let mut b = board_with_user("alice", "secret");
    b.create_post("other", "S", "B", "alice", "secret", "a@x").unwrap();
    assert!(b.list_group("g").is_empty());
}

#[test]
fn verdicts_decide_posting() {
    let mut b = board_with_user("alice", "secret");
    assert_eq!(b.post_as(Some(false), "g", "S", "B", "alice", "e"), Err(NnntpError::InvalidUser));
    assert_eq!(b.post_as(None, "g", "S", "B", "alice", "e"), Err(NnntpError::StorageFailure));
    assert_eq!(b.post_as(Some(true), "g", "S", "B", "bob", "e"), Err(NnntpError::UnknownUser));
    assert_eq!(b.post_as(Some(true), "g", "S", "B", "alice", "e"), Ok(1));
    assert_eq!(b.comment_as(Some(false), 1, "c", "alice", "e"), Err(NnntpError::InvalidUser));
    assert_eq!(b.comment_as(Some(true), 1, "c", "alice", "e"), Ok(()));
}

#[test]
fn add_account_outcomes() {
    let mut b = Board::new();
    assert_eq!(b.add_account("bob", None), Err(NnntpError::StorageFailure));
    assert!(!b.is_registered("bob"));
    assert_eq!(b.add_account("bob", Some("d1".to_string())), Ok(()));
    assert_eq!(b.add_account("bob", Some("d2".to_string())), Err(NnntpError::DuplicateUser));
    assert_eq!(b.accounts()[0].digest, "d1");
}

#[test]
fn unreadable_digest_is_a_storage_failure() {
    let mut b = Board::new();
    b.add_account("bob", Some("not a digest".to_string())).unwrap();
    assert_eq!(b.authenticate("bob", "pw"), Err(NnntpError::StorageFailure));
}

#[test]
fn load_post_keeps_ids_increasing() {
    let mut b = Board::new();
    let p = |id: i32| StoredPost {
        id,
        group: "g".to_string(),
        subject: "s".to_string(),
        body: "b".to_string(),
        author: "a".to_string(),
        author_email: "e".to_string(),
    };
    assert_eq!(b.load_post(p(5)), Ok(()));
    assert_eq!(b.load_post(p(5)), Err(NnntpError::StorageFailure));
    assert_eq!(b.load_post(p(0)), Err(NnntpError::StorageFailure));
    assert_eq!(b.load_post(p(7)), Ok(()));
    b.load_comment(StoredComment {
        parent_id: 7,
        body: "c".to_string(),
        author: "a".to_string(),
        author_email: "e".to_string(),
    });
    assert_eq!(b.list_group("g")[1].comments.len(), 1);
    b.add_account("a", Some("x".to_string())).unwrap();
    assert_eq!(b.post_as(Some(true), "g", "s", "b", "a", "e"), Ok(8));
}

#[test]
fn strict_board_refuses_orphan_comments() {
    let mut b = Board::with_policy(true);
    b.register("alice", "secret").unwrap();
    assert_eq!(b.add_comment(9, "orphan", "alice", "secret", "a@x"), Err(NnntpError::UnknownPost));
    assert!(b.comments().is_empty());
    let id = b.create_post("g", "S", "B", "alice", "secret", "a@x").unwrap();
    assert!(b.has_post(id));
    assert_eq!(b.add_comment(id, "reply", "alice", "secret", "a@x"), Ok(()));
    assert_eq!(NnntpError::UnknownPost.status(), 400);
    assert_eq!(NnntpError::UnknownPost.message(), "Unknown post");
}
