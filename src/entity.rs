//! What a value must offer to be kept in a file of its own.
use vstd::prelude::*;

verus! {

/// Why the text of a stored value could not be turned back into a value.
#[derive(Clone, Copy, Debug, PartialEq, Eq, Structural)]
pub enum DecodeError {
    /// The text is not an encoding of any value of the type.
    Malformed,
}

/// An entity that can be persisted on disk.
pub trait DiskEntity: Sized {
    /// The name of the file, inside the directory, that holds the value.
    const FILENAME: &'static str;

    /// Description of what kind of data is stored in the file.
    const DESCRIPTION: &'static str;

    /// The text that stands for this value on disk.
    spec fn repr_of(&self) -> Seq<char>;

    /// The value that the text `s` stands for, if any.
    spec fn parse_repr(s: Seq<char>) -> Option<Self>;

    /// Convert to the UTF-8 representation that is written to disk.
    fn to_repr(&self) -> (r: String)
        ensures
            r@ == self.repr_of(),
    ;

    /// Convert from the UTF-8 representation loaded from disk.
    fn from_repr(s: &str) -> (r: Result<Self, DecodeError>)
        ensures
            match Self::parse_repr(s@) {
                Some(v) => r == Ok::<Self, DecodeError>(v),
                None => r is Err,
            },
    ;

    /// The encoding is lossless: the text of a value stands for that value.
    proof fn lemma_repr_round_trip(&self)
        ensures
            Self::parse_repr(self.repr_of()) == Some(*self),
    ;
}

} // verus!
