use vstd::prelude::*;
use crate::auth::{bcrypt_verdict, check_password, hash_password};
use crate::error::NnntpError;

verus! {

/// A registered account: a username and the digest of its password.
pub struct Account {
    pub username: String,
    pub digest: String,
}

/// A stored post.
pub struct StoredPost {
    pub id: i32,
    pub group: String,
    pub subject: String,
    pub body: String,
    pub author: String,
    pub author_email: String,
}

/// A stored comment, tagged with the id of the post it answers.
pub struct StoredComment {
    pub parent_id: i32,
    pub body: String,
    pub author: String,
    pub author_email: String,
}

pub struct PostRow {
    pub id: int,
    pub group: Seq<char>,
    pub subject: Seq<char>,
    pub body: Seq<char>,
    pub author: Seq<char>,
    pub author_email: Seq<char>,
}

pub struct CommentRow {
    pub parent_id: int,
    pub body: Seq<char>,
    pub author: Seq<char>,
    pub author_email: Seq<char>,
}

impl View for Account {
    type V = (Seq<char>, Seq<char>);

    open spec fn view(&self) -> (Seq<char>, Seq<char>) {
        (self.username@, self.digest@)
    }
}

impl View for StoredPost {
    type V = PostRow;

    open spec fn view(&self) -> PostRow {
        PostRow {
            id: self.id as int,
            group: self.group@,
            subject: self.subject@,
            body: self.body@,
            author: self.author@,
            author_email: self.author_email@,
        }
    }
}

impl View for StoredComment {
    type V = CommentRow;

    open spec fn view(&self) -> CommentRow {
        CommentRow {
            parent_id: self.parent_id as int,
            body: self.body@,
            author: self.author@,
            author_email: self.author_email@,
        }
    }
}

impl StoredPost {
    pub fn copy(&self) -> (r: StoredPost)
        ensures
            r@ == self@,
    {
        StoredPost {
            id: self.id,
            group: self.group.clone(),
            subject: self.subject.clone(),
            body: self.body.clone(),
            author: self.author.clone(),
            author_email: self.author_email.clone(),
        }
    }
}

impl StoredComment {
    pub fn copy(&self) -> (r: StoredComment)
        ensures
            r@ == self@,
    {
        StoredComment {
            parent_id: self.parent_id,
            body: self.body.clone(),
            author: self.author.clone(),
            author_email: self.author_email.clone(),
        }
    }
}

/// The abstract contents of a board.
pub struct BoardView {
    pub users: Seq<(Seq<char>, Seq<char>)>,
    pub posts: Seq<PostRow>,
    pub comments: Seq<CommentRow>,
    pub next_id: int,
    /// Whether a comment must answer an existing post.
    pub strict: bool,
}

impl BoardView {
    pub open spec fn registered(self, name: Seq<char>) -> bool {
        exists|i: int| 0 <= i < self.users.len() && #[trigger] self.users[i].0 == name
    }

    /// The stored digest of `name`.
    pub open spec fn digest_of(self, name: Seq<char>) -> Option<Seq<char>> {
        if self.registered(name) {
            let i = choose|i: int| 0 <= i < self.users.len() && #[trigger] self.users[i].0 == name;
            Some(self.users[i].1)
        } else {
            None
        }
    }

    /// Usernames are unique; post ids are positive, below `next_id`, and
    /// strictly increase in the order the posts were made.
    pub open spec fn wf(self) -> bool {
        &&& forall|i: int, j: int|
            0 <= i < self.users.len() && 0 <= j < self.users.len() && #[trigger] self.users[i].0
                == #[trigger] self.users[j].0 ==> i == j
        &&& forall|i: int|
            0 <= i < self.posts.len() ==> 1 <= #[trigger] self.posts[i].id < self.next_id
        &&& forall|i: int, j: int|
            0 <= i < j < self.posts.len() ==> #[trigger] self.posts[i].id < #[trigger] self.posts[j].id
        &&& 1 <= self.next_id <= i32::MAX
    }

    pub open spec fn with_user(self, name: Seq<char>, digest: Seq<char>) -> BoardView {
        BoardView { users: self.users.push((name, digest)), ..self }
    }

    /// The row a new post gets: the next id, and the given members.
    pub open spec fn new_post(
        self,
        group: Seq<char>,
        subject: Seq<char>,
        body: Seq<char>,
        author: Seq<char>,
        email: Seq<char>,
    ) -> PostRow {
        PostRow { id: self.next_id, group, subject, body, author, author_email: email }
    }

    pub open spec fn with_post(self, row: PostRow) -> BoardView {
        BoardView { posts: self.posts.push(row), next_id: self.next_id + 1, ..self }
    }

    pub open spec fn with_comment(self, row: CommentRow) -> BoardView {
        BoardView { comments: self.comments.push(row), ..self }
    }

    /// The outcome of a password check, or `UnknownUser` where there is no
    /// account to check against.
    pub open spec fn gate(self, name: Seq<char>, verdict: Option<bool>) -> Result<(), NnntpError> {
        if self.registered(name) {
            verdict_outcome(verdict)
        } else {
            Err(NnntpError::UnknownUser)
        }
    }

    /// The id a post gets once its author passed `auth`, or why it is refused.
    pub open spec fn post_outcome(self, auth: Result<(), NnntpError>) -> Result<int, NnntpError> {
        match auth {
            Err(e) => Err(e),
            Ok(()) => if self.next_id >= i32::MAX {
                Err(NnntpError::StorageFailure)
            } else {
                Ok(self.next_id)
            },
        }
    }

    pub open spec fn has_post(self, id: int) -> bool {
        exists|i: int| 0 <= i < self.posts.len() && #[trigger] self.posts[i].id == id
    }

    /// Whether a comment on `parent` is stored once its author passed `auth`.
    pub open spec fn comment_outcome(self, auth: Result<(), NnntpError>, parent: int) -> Result<(), NnntpError> {
        match auth {
            Err(e) => Err(e),
            Ok(()) => if self.strict && !self.has_post(parent) {
                Err(NnntpError::UnknownPost)
            } else {
                Ok(())
            },
        }
    }

    /// The posts of `group`, each with its comments, in the order they were made.
    pub open spec fn listing(self, group: Seq<char>) -> Seq<(PostRow, Seq<CommentRow>)> {
        posts_in(self.posts, group).map_values(|p: PostRow| (p, comments_on(self.comments, p.id)))
    }

    /// The outcome of checking a password against an account.
    pub open spec fn credentials(self, name: Seq<char>, password: Seq<char>) -> Result<(), NnntpError> {
        match self.digest_of(name) {
            None => Err(NnntpError::UnknownUser),
            Some(d) => verdict_outcome(bcrypt_verdict(password, d)),
        }
    }
}

/// What a password check's answer means for the request that waits on it.
pub open spec fn verdict_outcome(v: Option<bool>) -> Result<(), NnntpError> {
    match v {
        None => Err(NnntpError::StorageFailure),
        Some(false) => Err(NnntpError::InvalidUser),
        Some(true) => Ok(()),
    }
}

/// The posts of `group` in `posts`, in the order they were made.
pub open spec fn posts_in(posts: Seq<PostRow>, group: Seq<char>) -> Seq<PostRow>
    decreases posts.len(),
{
    if posts.len() == 0 {
        Seq::empty()
    } else {
        let rest = posts_in(posts.drop_last(), group);
        if posts.last().group == group {
            rest.push(posts.last())
        } else {
            rest
        }
    }
}

/// The comments on post `id`, in the order they were made.
pub open spec fn comments_on(comments: Seq<CommentRow>, id: int) -> Seq<CommentRow>
    decreases comments.len(),
{
    if comments.len() == 0 {
        Seq::empty()
    } else {
        let rest = comments_on(comments.drop_last(), id);
        if comments.last().parent_id == id {
            rest.push(comments.last())
        } else {
            rest
        }
    }
}

/// Storing a new name keeps the board well formed, and the name then has
/// the stored digest.
pub proof fn lemma_with_user(v: BoardView, name: Seq<char>, digest: Seq<char>)
    requires
        v.wf(),
        !v.registered(name),
    ensures
        v.with_user(name, digest).wf(),
        v.with_user(name, digest).registered(name),
        v.with_user(name, digest).digest_of(name) == Some(digest),
{
    let v1 = v.with_user(name, digest);
    let n = v.users.len() as int;
    assert(v1.users[n].0 == name);
    assert forall|i: int, j: int|
        0 <= i < v1.users.len() && 0 <= j < v1.users.len() && #[trigger] v1.users[i].0
            == #[trigger] v1.users[j].0 implies i == j by {
        if i < n && j < n {
            assert(v.users[i].0 == v.users[j].0);
        } else if i < n {
            assert(v.users[i].0 == name);
        } else if j < n {
            assert(v.users[j].0 == name);
        }
    }
    let k = choose|k: int| 0 <= k < v1.users.len() && #[trigger] v1.users[k].0 == name;
    assert(k == n);
}

/// A post of a listing, with its comments.
pub struct Listed {
    pub post: StoredPost,
    pub comments: Vec<StoredComment>,
}

impl View for Listed {
    type V = (PostRow, Seq<CommentRow>);

    open spec fn view(&self) -> (PostRow, Seq<CommentRow>) {
        (self.post@, self.comments@.map_values(|c: StoredComment| c@))
    }
}

/// A board: accounts, posts and comments, and the id the next post gets.
pub struct Board {
    users: Vec<Account>,
    posts: Vec<StoredPost>,
    comments: Vec<StoredComment>,
    next_id: i32,
    strict: bool,
}

impl View for Board {
    type V = BoardView;

    closed spec fn view(&self) -> BoardView {
        BoardView {
            users: self.users@.map_values(|a: Account| a@),
            posts: self.posts@.map_values(|p: StoredPost| p@),
            comments: self.comments@.map_values(|c: StoredComment| c@),
            next_id: self.next_id as int,
            strict: self.strict,
        }
    }
}

impl Board {
    /// An empty board that takes comments on any parent id.
    pub fn new() -> (r: Board)
        ensures
            r@.wf(),
            r@.users.len() == 0,
            r@.posts.len() == 0,
            r@.comments.len() == 0,
            r@.next_id == 1,
            !r@.strict,
    {
        Board::with_policy(false)
    }

    /// An empty board; where `strict`, a comment must answer an existing post.
    pub fn with_policy(strict: bool) -> (r: Board)
        ensures
            r@.wf(),
            r@.users.len() == 0,
            r@.posts.len() == 0,
            r@.comments.len() == 0,
            r@.next_id == 1,
            r@.strict == strict,
    {
        Board { users: Vec::new(), posts: Vec::new(), comments: Vec::new(), next_id: 1, strict }
    }

    /// Whether a post carries `id`.
    pub fn has_post(&self, id: i32) -> (r: bool)
        ensures
            r == self@.has_post(id as int),
    {
        let mut i: usize = 0;
        while i < self.posts.len()
            invariant
                i <= self.posts@.len(),
                forall|k: int| 0 <= k < i ==> self@.posts[k].id != id as int,
            decreases self.posts@.len() - i,
        {
            if self.posts[i].id == id {
                assert(self@.posts[i as int].id == id as int);
                return true;
            }
            i = i + 1;
        }
        false
    }

    /// The index of the account of `name`.
    fn find_user(&self, name: &str) -> (r: Option<usize>)
        requires
            self@.wf(),
        ensures
            match r {
                Some(i) => i < self.users@.len() && self@.users[i as int].0 == name@
                    && self@.digest_of(name@) == Some(self@.users[i as int].1),
                None => !self@.registered(name@) && self@.digest_of(name@) is None,
            },
    {
        let mut i: usize = 0;
        while i < self.users.len()
            invariant
                i <= self.users@.len(),
                self@.wf(),
                forall|k: int| 0 <= k < i ==> self@.users[k].0 != name@,
            decreases self.users@.len() - i,
        {
            if crate::json::text_eq(self.users[i].username.as_str(), name) {
                assert(self@.users[i as int].0 == name@);
                return Some(i);
            }
            i = i + 1;
        }
        None
    }

    /// Whether `name` is registered.
    pub fn is_registered(&self, name: &str) -> (r: bool)
        requires
            self@.wf(),
        ensures
            r == self@.registered(name@),
    {
        self.find_user(name).is_some()
    }

    /// The password check of `name`: `None` where there is no account, or where
    /// the stored digest cannot be read.
    fn verdict(&self, name: &str, password: &str) -> (r: Option<bool>)
        requires
            self@.wf(),
        ensures
            self@.gate(name@, r) == self@.credentials(name@, password@),
    {
        match self.find_user(name) {
            Some(i) => check_password(password, self.users[i].digest.as_str()),
            None => None,
        }
    }

    /// Checks `password` against the account of `name`.
    pub fn authenticate(&self, name: &str, password: &str) -> (r: Result<(), NnntpError>)
        requires
            self@.wf(),
        ensures
            r == self@.credentials(name@, password@),
    {
        let v = self.verdict(name, password);
        if !self.is_registered(name) {
            Err(NnntpError::UnknownUser)
        } else {
            match v {
                None => Err(NnntpError::StorageFailure),
                Some(false) => Err(NnntpError::InvalidUser),
                Some(true) => Ok(()),
            }
        }
    }

    /// Stores a new account with the digest that hashing its password gave,
    /// unless the name is taken or hashing failed.
    pub fn add_account(&mut self, name: &str, digest: Option<String>) -> (r: Result<(), NnntpError>)
        requires
            old(self)@.wf(),
        ensures
            final(self)@.wf(),
            old(self)@.registered(name@) ==> r == Err::<(), NnntpError>(NnntpError::DuplicateUser)
                && final(self)@ == old(self)@,
            !old(self)@.registered(name@) ==> match digest {
                None => r == Err::<(), NnntpError>(NnntpError::StorageFailure) && final(self)@ == old(self)@,
                Some(d) => r is Ok && final(self)@ == old(self)@.with_user(name@, d@),
            },
    {
        if self.is_registered(name) {
            return Err(NnntpError::DuplicateUser);
        }
        match digest {
            None => Err(NnntpError::StorageFailure),
            Some(d) => {
                let ghost before = self@;
                self.users.push(Account { username: name.to_owned(), digest: d });
                assert(self@.users =~= before.users.push((name@, d@)));
                assert(self@ == before.with_user(name@, d@));
                Ok(())
            },
        }
    }

    /// Registers `name`. A taken name is refused before any hashing.
    pub fn register(&mut self, name: &str, password: &str) -> (r: Result<(), NnntpError>)
        requires
            old(self)@.wf(),
        ensures
            final(self)@.wf(),
            old(self)@.registered(name@) ==> r == Err::<(), NnntpError>(NnntpError::DuplicateUser)
                && final(self)@ == old(self)@,
            !old(self)@.registered(name@) ==> match r {
                Ok(()) => final(self)@ == old(self)@.with_user(name@, final(self)@.users.last().1)
                    && bcrypt_verdict(password@, final(self)@.users.last().1) == Some(true),
                Err(e) => e == NnntpError::StorageFailure && final(self)@ == old(self)@,
            },
            r is Ok ==> final(self)@.credentials(name@, password@) is Ok,
    {
        if self.is_registered(name) {
            return Err(NnntpError::DuplicateUser);
        }
        let digest = hash_password(password);
        let ghost before = self@;
        let r = self.add_account(name, digest);
        proof {
            if r is Ok {
                let d = digest.unwrap()@;
                lemma_with_user(before, name@, d);
                assert(self@.users.last().1 == d);
            }
        }
        r
    }

    /// Stores a post by `author` once the password check answered `verdict`.
    pub fn post_as(
        &mut self,
        verdict: Option<bool>,
        group: &str,
        subject: &str,
        body: &str,
        author: &str,
        email: &str,
    ) -> (r: Result<i32, NnntpError>)
        requires
            old(self)@.wf(),
        ensures
            final(self)@.wf(),
            match old(self)@.post_outcome(old(self)@.gate(author@, verdict)) {
                Ok(id) => r == Ok::<i32, NnntpError>(id as i32) && final(self)@ == old(self)@.with_post(
                    old(self)@.new_post(group@, subject@, body@, author@, email@),
                ),
                Err(e) => r == Err::<i32, NnntpError>(e) && final(self)@ == old(self)@,
            },
    {
        if !self.is_registered(author) {
            return Err(NnntpError::UnknownUser);
        }
        match verdict {
            None => return Err(NnntpError::StorageFailure),
            Some(false) => return Err(NnntpError::InvalidUser),
            Some(true) => {},
        }
        if self.next_id == i32::MAX {
            return Err(NnntpError::StorageFailure);
        }
        let ghost before = self@;
        let id = self.next_id;
        self.posts.push(
            StoredPost {
                id,
                group: group.to_owned(),
                subject: subject.to_owned(),
                body: body.to_owned(),
                author: author.to_owned(),
                author_email: email.to_owned(),
            },
        );
        self.next_id = id + 1;
        assert(self@.posts =~= before.posts.push(before.new_post(group@, subject@, body@, author@, email@)));
        Ok(id)
    }

    /// Stores a post by `author`, once `password` checks out.
    pub fn create_post(
        &mut self,
        group: &str,
        subject: &str,
        body: &str,
        author: &str,
        password: &str,
        email: &str,
    ) -> (r: Result<i32, NnntpError>)
        requires
            old(self)@.wf(),
        ensures
            final(self)@.wf(),
            match old(self)@.post_outcome(old(self)@.credentials(author@, password@)) {
                Ok(id) => r == Ok::<i32, NnntpError>(id as i32) && final(self)@ == old(self)@.with_post(
                    old(self)@.new_post(group@, subject@, body@, author@, email@),
                ),
                Err(e) => r == Err::<i32, NnntpError>(e) && final(self)@ == old(self)@,
            },
    {
        let v = self.verdict(author, password);
        self.post_as(v, group, subject, body, author, email)
    }

    /// Stores a comment by `author` on post `parent` once the password check
    /// answered `verdict`. The parent is looked up only on a strict board.
    pub fn comment_as(
        &mut self,
        verdict: Option<bool>,
        parent: i32,
        body: &str,
        author: &str,
        email: &str,
    ) -> (r: Result<(), NnntpError>)
        requires
            old(self)@.wf(),
        ensures
            final(self)@.wf(),
            match old(self)@.comment_outcome(old(self)@.gate(author@, verdict), parent as int) {
                Ok(()) => r is Ok && final(self)@ == old(self)@.with_comment(
                    CommentRow { parent_id: parent as int, body: body@, author: author@, author_email: email@ },
                ),
                Err(e) => r == Err::<(), NnntpError>(e) && final(self)@ == old(self)@,
            },
    {
        if !self.is_registered(author) {
            return Err(NnntpError::UnknownUser);
        }
        match verdict {
            None => return Err(NnntpError::StorageFailure),
            Some(false) => return Err(NnntpError::InvalidUser),
            Some(true) => {},
        }
        if self.strict && !self.has_post(parent) {
            return Err(NnntpError::UnknownPost);
        }
        let ghost before = self@;
        self.comments.push(
            StoredComment {
                parent_id: parent,
                body: body.to_owned(),
                author: author.to_owned(),
                author_email: email.to_owned(),
            },
        );
        assert(self@.comments =~= before.comments.push(
            CommentRow { parent_id: parent as int, body: body@, author: author@, author_email: email@ },
        ));
        assert(self@.users == before.users);
        assert(self@.posts == before.posts);
        Ok(())
    }

    /// Stores a comment by `author` on post `parent`, once `password` checks out.
    pub fn add_comment(
        &mut self,
        parent: i32,
        body: &str,
        author: &str,
        password: &str,
        email: &str,
    ) -> (r: Result<(), NnntpError>)
        requires
            old(self)@.wf(),
        ensures
            final(self)@.wf(),
            match old(self)@.comment_outcome(old(self)@.credentials(author@, password@), parent as int) {
                Ok(()) => r is Ok && final(self)@ == old(self)@.with_comment(
                    CommentRow { parent_id: parent as int, body: body@, author: author@, author_email: email@ },
                ),
                Err(e) => r == Err::<(), NnntpError>(e) && final(self)@ == old(self)@,
            },
    {
        let v = self.verdict(author, password);
        self.comment_as(v, parent, body, author, email)
    }

    /// The comments on post `id`, in the order they were made.
    fn comments_of(&self, id: i32) -> (r: Vec<StoredComment>)
        ensures
            r@.map_values(|c: StoredComment| c@) == comments_on(self@.comments, id as int),
    {
        let mut out: Vec<StoredComment> = Vec::new();
        let mut i: usize = 0;
        while i < self.comments.len()
            invariant
                i <= self.comments@.len(),
                out@.map_values(|c: StoredComment| c@) == comments_on(self@.comments.take(i as int), id as int),
            decreases self.comments@.len() - i,
        {
            let ghost prev = out@;
            assert(self@.comments.take(i + 1).drop_last() =~= self@.comments.take(i as int));
            if self.comments[i].parent_id == id {
                out.push(self.comments[i].copy());
                assert(out@.map_values(|c: StoredComment| c@) =~= prev.map_values(|c: StoredComment| c@).push(
                    self@.comments[i as int],
                ));
            }
            i = i + 1;
        }
        assert(self@.comments.take(self.comments@.len() as int) =~= self@.comments);
        out
    }

    /// The posts of `group`, each with its comments, in the order they were made.
    pub fn list_group(&self, group: &str) -> (r: Vec<Listed>)
        ensures
            r@.map_values(|l: Listed| l@) == self@.listing(group@),
    {
        let mut out: Vec<Listed> = Vec::new();
        let mut i: usize = 0;
        while i < self.posts.len()
            invariant
                i <= self.posts@.len(),
                out@.map_values(|l: Listed| l@) == posts_in(self@.posts.take(i as int), group@).map_values(
                    |p: PostRow| (p, comments_on(self@.comments, p.id)),
                ),
            decreases self.posts@.len() - i,
        {
            let ghost prev = out@;
            assert(self@.posts.take(i + 1).drop_last() =~= self@.posts.take(i as int));
            if crate::json::text_eq(self.posts[i].group.as_str(), group) {
                let comments = self.comments_of(self.posts[i].id);
                out.push(Listed { post: self.posts[i].copy(), comments });
                assert(out@.map_values(|l: Listed| l@) =~= prev.map_values(|l: Listed| l@).push(
                    (self@.posts[i as int], comments_on(self@.comments, self@.posts[i as int].id)),
                ));
            }
            i = i + 1;
        }
        assert(self@.posts.take(self.posts@.len() as int) =~= self@.posts);
        out
    }

    /// Restores a stored post. Posts must come in increasing id order, each
    /// at or above the next free id; any other is refused.
    pub fn load_post(&mut self, post: StoredPost) -> (r: Result<(), NnntpError>)
        requires
            old(self)@.wf(),
        ensures
            final(self)@.wf(),
            if 1 <= post.id && old(self)@.next_id <= post.id && post.id < i32::MAX {
                r is Ok && final(self)@ == (BoardView {
                    posts: old(self)@.posts.push(post@),
                    next_id: post.id + 1,
                    ..old(self)@
                })
            } else {
                r == Err::<(), NnntpError>(NnntpError::StorageFailure) && final(self)@ == old(self)@
            },
    {
        if post.id < 1 || post.id < self.next_id || post.id == i32::MAX {
            return Err(NnntpError::StorageFailure);
        }
        let ghost before = self@;
        let ghost row = post@;
        let id = post.id;
        self.posts.push(post);
        self.next_id = id + 1;
        assert(self@.posts =~= before.posts.push(row));
        Ok(())
    }

    /// Restores a stored comment.
    pub fn load_comment(&mut self, comment: StoredComment)
        requires
            old(self)@.wf(),
        ensures
            final(self)@.wf(),
            final(self)@ == old(self)@.with_comment(comment@),
    {
        let ghost before = self@;
        let ghost row = comment@;
        self.comments.push(comment);
        assert(self@.comments =~= before.comments.push(row));
        assert(self@.users == before.users);
        assert(self@.posts == before.posts);
    }

    pub fn accounts(&self) -> (r: &Vec<Account>)
        ensures
            r@.map_values(|a: Account| a@) == self@.users,
    {
        &self.users
    }

    pub fn posts(&self) -> (r: &Vec<StoredPost>)
        ensures
            r@.map_values(|p: StoredPost| p@) == self@.posts,
    {
        &self.posts
    }

    pub fn comments(&self) -> (r: &Vec<StoredComment>)
        ensures
            r@.map_values(|c: StoredComment| c@) == self@.comments,
    {
        &self.comments
    }
}

} // verus!
