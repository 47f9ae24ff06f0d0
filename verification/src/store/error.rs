//! What can go wrong in the store.

use crate::io_kind::ErrorKind;
use crate::store::hash::BlobHash;
use vstd::prelude::*;

verus! {

/// What can go wrong in the store.
#[derive(Debug, PartialEq, Eq)]
pub enum StoreError {
    /// path must be absolute
    PathNotAbsolute,
    /// path is not a file or symlink
    PathNotFile,
    /// target path must be absolute
    TargetNotAbsolute,
    /// target path has no parent directory
    TargetNoParent,
    /// hash not found
    HashNotFound(BlobHash),
    /// inconsistent database state: the entry should have inline data but does not
    MissingInlineData(BlobHash),
    /// inconsistent database state: the entry should have inline outboard but does not
    MissingInlineOutboard(BlobHash),
    /// file not found
    DataFileNotFound { path: String },
    /// file not found
    OutboardFileNotFound { path: String, size: u64 },
    /// size too large
    SizeTooLarge,
    /// The data does not have the size that it had before.
    SizeChanged { expected: u64, found: u64 },
    /// The outboard does not fit the size that it names.
    InvalidOutboard,
    /// Anything else, in words.
    Other(String),
    /// The operating system refused an operation, with its own words.
    Io { kind: ErrorKind, text: String },
}

impl StoreError {
    /// The class of the error.
    pub open spec fn spec_kind(self) -> ErrorKind {
        match self {
            StoreError::PathNotAbsolute | StoreError::PathNotFile | StoreError::TargetNotAbsolute
            | StoreError::TargetNoParent | StoreError::SizeTooLarge => ErrorKind::InvalidInput,
            StoreError::HashNotFound(_) | StoreError::DataFileNotFound { .. }
            | StoreError::OutboardFileNotFound { .. } => ErrorKind::NotFound,
            StoreError::MissingInlineData(_) | StoreError::MissingInlineOutboard(
                _,
            ) => ErrorKind::InvalidData,
            StoreError::SizeChanged { expected, found } => if found < expected {
                ErrorKind::UnexpectedEof
            } else {
                ErrorKind::Other
            },
            StoreError::InvalidOutboard | StoreError::Other(_) => ErrorKind::Other,
            StoreError::Io { kind, .. } => kind,
        }
    }

    /// The class of the error.
    pub fn kind(&self) -> (r: ErrorKind)
        ensures
            r == self.spec_kind(),
    {
        match self {
            StoreError::PathNotAbsolute => ErrorKind::InvalidInput,
            StoreError::PathNotFile => ErrorKind::InvalidInput,
            StoreError::TargetNotAbsolute => ErrorKind::InvalidInput,
            StoreError::TargetNoParent => ErrorKind::InvalidInput,
            StoreError::SizeTooLarge => ErrorKind::InvalidInput,
            StoreError::HashNotFound(_) => ErrorKind::NotFound,
            StoreError::DataFileNotFound { .. } => ErrorKind::NotFound,
            StoreError::OutboardFileNotFound { .. } => ErrorKind::NotFound,
            StoreError::MissingInlineData(_) => ErrorKind::InvalidData,
            StoreError::MissingInlineOutboard(_) => ErrorKind::InvalidData,
            StoreError::SizeChanged { expected, found } => {
                // what is missing was to be read
                if *found < *expected {
                    ErrorKind::UnexpectedEof
                } else {
                    ErrorKind::Other
                }
            },
            StoreError::InvalidOutboard => ErrorKind::Other,
            StoreError::Other(_) => ErrorKind::Other,
            StoreError::Io { kind, .. } => *kind,
        }
    }
}

/// An error of the database: one of its files, or anything else in words.
#[derive(Debug, PartialEq, Eq)]
pub enum DbError {
    Io(StoreError),
    Other(String),
}

/// A database error as an error of the store.
pub open spec fn io_err(e: DbError) -> StoreError {
    match e {
        DbError::Io(e) => e,
        DbError::Other(text) => StoreError::Other(text),
    }
}

/// A database error as an error of the store. One of a file stays what it is.
pub fn to_io_err(e: DbError) -> (r: StoreError)
    ensures
        r == io_err(e),
{
    match e {
        DbError::Io(e) => e,
        DbError::Other(text) => StoreError::Other(text),
    }
}

/// Error type for message handler functions of the store actor.
///
/// What can go wrong are various things with the database, as well as io errors related
/// to other files.
#[derive(Debug, PartialEq, Eq)]
pub enum ActorError {
    Table(String),
    Database(String),
    Transaction(String),
    Commit(String),
    Storage(String),
    Io(StoreError),
}

/// `text` behind what kind of error it is.
fn described(what: &str, text: &String) -> (r: String)
    ensures
        r@ == what@ + text@,
{
    let mut out: String = String::new();
    out.append(what);
    out.append(text.as_str());
    assert(out@ =~= what@ + text@);
    out
}

impl ActorError {
    /// An error of the database in words.
    pub open spec fn spec_text(self) -> Seq<char> {
        match self {
            ActorError::Table(text) => "table error: "@ + text@,
            ActorError::Database(text) => "database error: "@ + text@,
            ActorError::Transaction(text) => "transaction error: "@ + text@,
            ActorError::Commit(text) => "commit error: "@ + text@,
            ActorError::Storage(text) => "storage error: "@ + text@,
            ActorError::Io(_) => Seq::empty(),
        }
    }

    /// An error of the database in words.
    fn text(&self) -> (r: String)
        requires
            !(self is Io),
        ensures
            r@ == self.spec_text(),
    {
        match self {
            ActorError::Table(text) => described("table error: ", text),
            ActorError::Database(text) => described("database error: ", text),
            ActorError::Transaction(text) => described("transaction error: ", text),
            ActorError::Commit(text) => described("commit error: ", text),
            ActorError::Storage(text) => described("storage error: ", text),
            ActorError::Io(_) => String::new(),
        }
    }

    /// The error as an error of the store. One of a file stays what it is.
    pub fn into_io(self) -> (r: StoreError)
        ensures
            match self {
                ActorError::Io(e) => r == e,
                _ => r matches StoreError::Other(text) && text@ == self.spec_text(),
            },
    {
        match self {
            ActorError::Io(e) => e,
            e => StoreError::Other(e.text()),
        }
    }
}

/// Error type for calling the store actor from the store.
///
/// What can go wrong is all the things in [`ActorError`] and in addition
/// sending and receiving messages.
#[derive(Debug, PartialEq, Eq)]
pub enum OuterError {
    Inner(ActorError),
    Send(String),
    Recv(String),
    JoinTask(String),
}

impl OuterError {
    /// `r` is the error as an error of the store.
    pub open spec fn is_io(self, r: StoreError) -> bool {
        match self {
            OuterError::Inner(ActorError::Io(e)) => r == e,
            OuterError::Inner(e) => r matches StoreError::Other(text) && text@ == "inner error: "@
                + e.spec_text(),
            OuterError::Send(t) => r matches StoreError::Other(text) && text@ == "send error: "@
                + t@,
            OuterError::Recv(t) => r matches StoreError::Other(text) && text@ == "recv error: "@
                + t@,
            OuterError::JoinTask(t) => r matches StoreError::Other(text) && text@ == "join error: "@
                + t@,
        }
    }

    /// The error as an error of the store. One of a file stays what it is.
    pub fn into_io(self) -> (r: StoreError)
        ensures
            self.is_io(r),
    {
        match self {
            OuterError::Inner(ActorError::Io(e)) => e,
            OuterError::Inner(e) => StoreError::Other(described("inner error: ", &e.text())),
            OuterError::Send(t) => StoreError::Other(described("send error: ", &t)),
            OuterError::Recv(t) => StoreError::Other(described("recv error: ", &t)),
            OuterError::JoinTask(t) => StoreError::Other(described("join error: ", &t)),
        }
    }
}

/// What the operating system says of an error is kept, a blob or a file that is not
/// there is not found, a path that cannot be used is bad input, tables that lack a
/// row are bad data, and data that ended too early is an unexpected end.
pub proof fn errors_keep_their_class(
    hash: BlobHash,
    path: String,
    kind: ErrorKind,
    text: String,
    expected: u64,
    found: u64,
)
    ensures
        (StoreError::Io { kind, text }).spec_kind() == kind,
        StoreError::HashNotFound(hash).spec_kind() == ErrorKind::NotFound,
        (StoreError::DataFileNotFound { path }).spec_kind() == ErrorKind::NotFound,
        (StoreError::OutboardFileNotFound { path, size: expected }).spec_kind()
            == ErrorKind::NotFound,
        StoreError::PathNotAbsolute.spec_kind() == ErrorKind::InvalidInput,
        StoreError::PathNotFile.spec_kind() == ErrorKind::InvalidInput,
        StoreError::TargetNotAbsolute.spec_kind() == ErrorKind::InvalidInput,
        StoreError::TargetNoParent.spec_kind() == ErrorKind::InvalidInput,
        StoreError::SizeTooLarge.spec_kind() == ErrorKind::InvalidInput,
        StoreError::MissingInlineData(hash).spec_kind() == ErrorKind::InvalidData,
        StoreError::MissingInlineOutboard(hash).spec_kind() == ErrorKind::InvalidData,
        (StoreError::SizeChanged { expected, found }).spec_kind() == ErrorKind::UnexpectedEof
            <==> found < expected,
        (StoreError::SizeChanged { expected, found }).spec_kind() == ErrorKind::Other <==> found
            >= expected,
        StoreError::InvalidOutboard.spec_kind() == ErrorKind::Other,
        StoreError::Other(text).spec_kind() == ErrorKind::Other,
{
}

/// The words of an error of the database end with its own words and begin with the
/// part of the database that it came from, by which they are told apart.
pub proof fn error_texts_name_their_source(text: String)
    ensures
        ActorError::Table(text).spec_text() == "table error: "@ + text@,
        ActorError::Database(text).spec_text() == "database error: "@ + text@,
        ActorError::Transaction(text).spec_text() == "transaction error: "@ + text@,
        ActorError::Commit(text).spec_text() == "commit error: "@ + text@,
        ActorError::Storage(text).spec_text() == "storage error: "@ + text@,
{
}

/// An error of a file stays what it is, from the database and through the actor,
/// with its class. Any other one is told in words that end with its own.
pub proof fn file_errors_pass_through(
    io: StoreError,
    text: String,
    outer: OuterError,
    passed: StoreError,
    told: StoreError,
)
    requires
        OuterError::Inner(ActorError::Io(io)).is_io(passed),
        outer is Send || outer is Recv || outer is JoinTask,
        outer == OuterError::Send(text) || outer == OuterError::Recv(text) || outer
            == OuterError::JoinTask(text),
        outer.is_io(told),
    ensures
        passed == io,
        io_err(DbError::Io(io)) == io,
        io_err(DbError::Other(text)) == StoreError::Other(text),
        told matches StoreError::Other(words) && text@.is_suffix_of(words@),
        told.spec_kind() == ErrorKind::Other,
{
    let words = told->Other_0;
    assert(text@ =~= words@.subrange(words@.len() - text@.len(), words@.len() as int));
}

} // verus!
