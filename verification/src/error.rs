//! The errors of the store.
use vstd::prelude::*;

verus! {

/// Why an operation of the store was refused. A refused operation changes nothing.
#[derive(Clone, Copy, Debug, PartialEq, Eq, Structural)]
pub enum StoreError {
    /// No row has the id that was asked for.
    NotFound,
    /// A tag names a colour that the palette does not have.
    UnknownColor,
    /// A batch names an operation that does not exist.
    UnknownOperation,
    /// An update of a tag sets neither the name nor the colour.
    EmptyUpdate,
    /// A row with this id, or with this unique value, is already there.
    DuplicateKey,
    /// A row refers to a row that is not there.
    MissingReference,
    /// A structured value could not be encoded for storing.
    Encoding,
}

/// The kinds of error that callers tell apart.
#[derive(Clone, Copy, Debug, PartialEq, Eq, Structural)]
pub enum ErrorKind {
    /// A lookup by id found nothing.
    NotFound,
    /// The request itself is not acceptable.
    Validation,
    /// A structured value could not be encoded.
    Serialization,
    /// The store rejected the operation.
    Storage,
}

impl StoreError {
    /// The kind of this error.
    pub open spec fn kind_of(self) -> ErrorKind {
        match self {
            StoreError::NotFound => ErrorKind::NotFound,
            StoreError::UnknownColor => ErrorKind::Validation,
            StoreError::UnknownOperation => ErrorKind::Validation,
            StoreError::EmptyUpdate => ErrorKind::Validation,
            StoreError::DuplicateKey => ErrorKind::Storage,
            StoreError::MissingReference => ErrorKind::Storage,
            StoreError::Encoding => ErrorKind::Serialization,
        }
    }

    /// The kind of this error.
    pub fn kind(&self) -> (k: ErrorKind)
        ensures
            k == self.kind_of(),
    {
        match self {
            StoreError::NotFound => ErrorKind::NotFound,
            StoreError::UnknownColor => ErrorKind::Validation,
            StoreError::UnknownOperation => ErrorKind::Validation,
            StoreError::EmptyUpdate => ErrorKind::Validation,
            StoreError::DuplicateKey => ErrorKind::Storage,
            StoreError::MissingReference => ErrorKind::Storage,
            StoreError::Encoding => ErrorKind::Serialization,
        }
    }

    /// The message of this error.
    pub open spec fn message_of(self) -> Seq<char> {
        match self {
            StoreError::NotFound => "not found"@,
            StoreError::UnknownColor => "unknown color id"@,
            StoreError::UnknownOperation => "unknown batch operation"@,
            StoreError::EmptyUpdate => "no updates provided"@,
            StoreError::DuplicateKey => "a row with this key exists already"@,
            StoreError::MissingReference => "a referenced row does not exist"@,
            StoreError::Encoding => "a value could not be encoded"@,
        }
    }

    /// A message for this error, for a caller that reports errors as text.
    pub fn message(&self) -> (m: &'static str)
        ensures
            m@ == self.message_of(),
    {
        match self {
            StoreError::NotFound => "not found",
            StoreError::UnknownColor => "unknown color id",
            StoreError::UnknownOperation => "unknown batch operation",
            StoreError::EmptyUpdate => "no updates provided",
            StoreError::DuplicateKey => "a row with this key exists already",
            StoreError::MissingReference => "a referenced row does not exist",
            StoreError::Encoding => "a value could not be encoded",
        }
    }

    /// The message of this error about `subject`, the key or the operation that was
    /// refused: the message, a colon, and the subject.
    pub open spec fn message_about(self, subject: Seq<char>) -> Seq<char> {
        self.message_of() + ": "@ + subject
    }

    /// A message for this error that names `subject`, the key or the operation that was
    /// refused.
    pub fn message_for(&self, subject: &str) -> (m: String)
        ensures
            m@ == self.message_about(subject@),
    {
        let mut m = self.message().to_owned();
        m.append(": ");
        m.append(subject);
        m
    }
}

} // verus!
