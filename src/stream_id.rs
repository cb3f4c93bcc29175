use vstd::prelude::*;

use crate::commit_id::{CommitId, CommitIdView};
use crate::content_id::Cid;
use crate::result::Result;
use crate::stream_ref::{StreamRef, StreamRefExt, StreamRefView};
use crate::stream_type::StreamType;
use crate::util::{self, header, ParseMode};

verus! {

/// A stream identifier: the stream type and the genesis CID, no commit.
///
/// Its bytes are the codec varint, the stream type varint and the genesis
/// CID's bytes; its text is those bytes in multibase base36.
#[derive(Clone, Debug, PartialEq, Eq, Hash)]
pub struct StreamId {
    pub stream_type: StreamType,
    pub cid: Cid,
}

/// A stream identifier as a value.
pub struct StreamIdView {
    pub stream_type: StreamType,
    pub cid: Seq<u8>,
}

impl StreamIdView {
    /// The genesis is the serialization of a CID.
    pub open spec fn wf(self) -> bool {
        crate::content_id::cid_wf(self.cid)
    }

    /// The binary layout of the identifier.
    pub open spec fn bytes(self) -> Seq<u8> {
        header(self.stream_type) + self.cid
    }
}

impl View for StreamId {
    type V = StreamIdView;

    open spec fn view(&self) -> StreamIdView {
        StreamIdView { stream_type: self.stream_type, cid: self.cid@ }
    }
}

impl StreamId {
    /// Decodes a stream identifier from bytes; bytes that carry a commit are refused.
    pub fn from_slice(value: &[u8]) -> (r: Result<StreamId>)
        ensures
            match r {
                Ok(s) => util::decode_spec(ParseMode::BaseOnly, value@) == Ok::<StreamRefView, crate::result::ErrorKind>(StreamRefView::StreamId(s@)),
                Err(e) => util::decode_spec(ParseMode::BaseOnly, value@) == Err::<StreamRefView, crate::result::ErrorKind>(e@),
            },
    {
        match util::try_from_slice(ParseMode::BaseOnly, value) {
            Ok(StreamRef::StreamId(s)) => Ok(s),
            Ok(StreamRef::CommitId(_)) => {
                proof {
                    util::lemma_decode_accepts(ParseMode::BaseOnly, value@);
                }
                vstd::pervasive::unreached()
            },
            Err(e) => Err(e),
        }
    }

    /// Parses a stream identifier from its text or URL; commit suffixes are refused.
    pub fn parse(s: &str) -> (r: Result<StreamId>)
        ensures
            match r {
                Ok(x) => util::parse_spec(ParseMode::BaseOnly, s@) == Ok::<StreamRefView, crate::result::ErrorKind>(StreamRefView::StreamId(x@)),
                Err(e) => util::parse_spec(ParseMode::BaseOnly, s@) == Err::<StreamRefView, crate::result::ErrorKind>(e@),
            },
    {
        match util::from_str(ParseMode::BaseOnly, s) {
            Ok(StreamRef::StreamId(x)) => Ok(x),
            Ok(StreamRef::CommitId(_)) => {
                proof {
                    util::lemma_parse_accepts(ParseMode::BaseOnly, s@);
                }
                vstd::pervasive::unreached()
            },
            Err(e) => Err(e),
        }
    }

    /// The base36 text of the identifier.
    pub fn to_string(&self) -> (r: String)
        ensures
            crate::encoding::is_base36_encoding(r@, self@.bytes()),
    {
        self.to_base36_string()
    }
}

impl StreamRefExt for StreamId {
    open spec fn ref_stream_type(&self) -> StreamType {
        self.stream_type
    }

    open spec fn ref_cid(&self) -> Seq<u8> {
        self.cid@
    }

    open spec fn ref_bytes(&self) -> Seq<u8> {
        self@.bytes()
    }

    fn stream_type(&self) -> (r: StreamType) {
        self.stream_type
    }

    fn cid(&self) -> (r: &Cid) {
        &self.cid
    }

    fn at_commit(&self, commit: Cid) -> (r: CommitId) {
        CommitId { stream_type: self.stream_type, cid: self.cid.clone(), commit: Some(commit) }
    }

    fn to_base_id(&self) -> (r: StreamId) {
        StreamId { stream_type: self.stream_type, cid: self.cid.clone() }
    }

    fn to_bytes(&self) -> (r: Vec<u8>) {
        let mut out = util::write_header(self.stream_type);
        let mut cid = self.cid.to_bytes();
        out.append(&mut cid);
        out
    }
}

impl core::str::FromStr for StreamId {
    type Err = crate::result::Error;

    fn from_str(s: &str) -> (r: Result<StreamId>)
        ensures
            match r {
                Ok(x) => util::parse_spec(ParseMode::BaseOnly, s@) == Ok::<StreamRefView, crate::result::ErrorKind>(StreamRefView::StreamId(x@)),
                Err(e) => util::parse_spec(ParseMode::BaseOnly, s@) == Err::<StreamRefView, crate::result::ErrorKind>(e@),
            },
    {
        StreamId::parse(s)
    }
}

} // verus!
