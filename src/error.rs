use vstd::prelude::*;

verus! {

/// A member of a request envelope that a request kind may require.
#[derive(PartialEq, Eq, Structural, Clone, Copy, Debug)]
pub enum Field {
    Nnntp,
    Group,
    Post,
    Subject,
    Body,
    Author,
    Username,
    Password,
    Email,
    Parent,
    Id,
    Comment,
}

impl Field {
    /// The member's key on the wire.
    pub open spec fn key(self) -> Seq<char> {
        match self {
            Field::Nnntp => "nnntp"@,
            Field::Group => "group"@,
            Field::Post => "post"@,
            Field::Subject => "subject"@,
            Field::Body => "body"@,
            Field::Author => "author"@,
            Field::Username => "username"@,
            Field::Password => "password"@,
            Field::Email => "email"@,
            Field::Parent => "parent"@,
            Field::Id => "id"@,
            Field::Comment => "comment"@,
        }
    }

    pub fn name(self) -> (r: &'static str)
        ensures
            r@ == self.key(),
    {
        match self {
            Field::Nnntp => "nnntp",
            Field::Group => "group",
            Field::Post => "post",
            Field::Subject => "subject",
            Field::Body => "body",
            Field::Author => "author",
            Field::Username => "username",
            Field::Password => "password",
            Field::Email => "email",
            Field::Parent => "parent",
            Field::Id => "id",
            Field::Comment => "comment",
        }
    }
}

/// Every way a request, an operation or a decode can fail.
#[derive(PartialEq, Eq, Structural, Clone, Copy, Debug)]
pub enum NnntpError {
    /// A required member is absent (or, once typed, has the wrong type).
    MissingField(Field),
    /// The `type` discriminator is absent, not a string, or not a known kind.
    UnknownRequestType,
    /// The password does not match the stored digest.
    InvalidUser,
    /// No account carries that username.
    UnknownUser,
    /// The username is already registered.
    DuplicateUser,
    /// A server response could not be decoded.
    InvalidResponse,
    /// The store could not carry out the operation.
    StorageFailure,
    /// Under the strict comment policy: no post carries the parent id.
    UnknownPost,
}

/// The wire status that an error is reported with.
pub open spec fn status_spec(e: NnntpError) -> u16 {
    match e {
        NnntpError::InvalidUser | NnntpError::UnknownUser => 401,
        _ => 400,
    }
}

/// The human-readable detail of an error.
pub open spec fn message_spec(e: NnntpError) -> Seq<char> {
    match e {
        NnntpError::MissingField(f) => f.key() + " is required"@,
        NnntpError::UnknownRequestType => "valid type is required"@,
        NnntpError::InvalidUser => "Invalid user"@,
        NnntpError::UnknownUser => "Unknown user"@,
        NnntpError::DuplicateUser => "User already exists"@,
        NnntpError::InvalidResponse => "Invalid response"@,
        NnntpError::StorageFailure => "Storage failure"@,
        NnntpError::UnknownPost => "Unknown post"@,
    }
}

impl NnntpError {
    pub fn status(self) -> (r: u16)
        ensures
            r == status_spec(self),
    {
        match self {
            NnntpError::InvalidUser | NnntpError::UnknownUser => 401,
            _ => 400,
        }
    }

    pub fn message(self) -> (r: String)
        ensures
            r@ == message_spec(self),
    {
        match self {
            NnntpError::MissingField(f) => String::from_str(f.name()).concat(" is required"),
            NnntpError::UnknownRequestType => String::from_str("valid type is required"),
            NnntpError::InvalidUser => String::from_str("Invalid user"),
            NnntpError::UnknownUser => String::from_str("Unknown user"),
            NnntpError::DuplicateUser => String::from_str("User already exists"),
            NnntpError::InvalidResponse => String::from_str("Invalid response"),
            NnntpError::StorageFailure => String::from_str("Storage failure"),
            NnntpError::UnknownPost => String::from_str("Unknown post"),
        }
    }
}

} // verus!
