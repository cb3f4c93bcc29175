use vstd::prelude::*;

verus! {

/// What can go wrong when identifiers are decoded or parsed.
#[derive(Debug)]
pub enum Error {
    /// Commit identifier bytes that hold no commit information.
    InvalidCommitIdBytes(String),
    /// A string that is not a commit identifier.
    InvalidCommitIdString(String),
    /// Stream identifier bytes followed by a commit; holds those bytes in base36.
    InvalidStreamIdBytes(String),
    /// A string that is not a stream identifier.
    InvalidStreamIdString(String),
    /// Malformed identifier bytes; holds them in base36.
    InvalidStreamRefBytes(String),
    /// Bytes that do not start with the stream identifier codec.
    InvalidStreamRefCodec,
    /// A string that is neither kind of identifier.
    InvalidStreamRefString(String),
    /// A stream type code outside the known set.
    InvalidStreamTypeIndex(u8),
    /// A stream type name outside the known set.
    InvalidStreamTypeName(String),
    /// The CID reader or parser refused its input, or bytes were left after
    /// the commit CID; holds a message.
    Cid(String),
    /// A varint could not be read; holds the reader's message.
    VarintDecode(String),
}

pub type Result<T, E = Error> = core::result::Result<T, E>;

/// An error as a value: the text it carries, without the outside error values.
pub enum ErrorKind {
    InvalidCommitIdBytes(Seq<char>),
    InvalidCommitIdString(Seq<char>),
    InvalidStreamIdBytes(Seq<char>),
    InvalidStreamIdString(Seq<char>),
    InvalidStreamRefBytes(Seq<char>),
    InvalidStreamRefCodec,
    InvalidStreamRefString(Seq<char>),
    InvalidStreamTypeIndex(u8),
    InvalidStreamTypeName(Seq<char>),
    Cid,
    VarintDecode,
}

impl View for Error {
    type V = ErrorKind;

    open spec fn view(&self) -> ErrorKind {
        match self {
            Error::InvalidCommitIdBytes(s) => ErrorKind::InvalidCommitIdBytes(s@),
            Error::InvalidCommitIdString(s) => ErrorKind::InvalidCommitIdString(s@),
            Error::InvalidStreamIdBytes(s) => ErrorKind::InvalidStreamIdBytes(s@),
            Error::InvalidStreamIdString(s) => ErrorKind::InvalidStreamIdString(s@),
            Error::InvalidStreamRefBytes(s) => ErrorKind::InvalidStreamRefBytes(s@),
            Error::InvalidStreamRefCodec => ErrorKind::InvalidStreamRefCodec,
            Error::InvalidStreamRefString(s) => ErrorKind::InvalidStreamRefString(s@),
            Error::InvalidStreamTypeIndex(c) => ErrorKind::InvalidStreamTypeIndex(*c),
            Error::InvalidStreamTypeName(s) => ErrorKind::InvalidStreamTypeName(s@),
            Error::Cid(_) => ErrorKind::Cid,
            Error::VarintDecode(_) => ErrorKind::VarintDecode,
        }
    }
}

} // verus!
