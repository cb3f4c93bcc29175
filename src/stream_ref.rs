use vstd::prelude::*;
use vstd::string::*;

use crate::commit_id::{CommitId, CommitIdView};
use crate::content_id::Cid;
use crate::encoding::{base36_encode, base36_text, is_base36_encoding};
use crate::result::{ErrorKind, Result};
use crate::stream_id::{StreamId, StreamIdView};
use crate::stream_type::StreamType;
use crate::util::{self, ParseMode};

verus! {

/// A commit identifier or a stream identifier.
#[derive(Clone, Debug, PartialEq, Eq, Hash)]
pub enum StreamRef {
    CommitId(CommitId),
    StreamId(StreamId),
}

/// Either kind of identifier as a value.
pub enum StreamRefView {
    CommitId(CommitIdView),
    StreamId(StreamIdView),
}

impl StreamRefView {
    pub open spec fn wf(self) -> bool {
        match self {
            StreamRefView::CommitId(c) => c.wf(),
            StreamRefView::StreamId(s) => s.wf(),
        }
    }

    pub open spec fn stream_type(self) -> StreamType {
        match self {
            StreamRefView::CommitId(c) => c.stream_type,
            StreamRefView::StreamId(s) => s.stream_type,
        }
    }

    pub open spec fn cid(self) -> Seq<u8> {
        match self {
            StreamRefView::CommitId(c) => c.cid,
            StreamRefView::StreamId(s) => s.cid,
        }
    }

    /// The binary layout of the identifier.
    pub open spec fn bytes(self) -> Seq<u8> {
        match self {
            StreamRefView::CommitId(c) => c.bytes(),
            StreamRefView::StreamId(s) => s.bytes(),
        }
    }
}

impl View for StreamRef {
    type V = StreamRefView;

    open spec fn view(&self) -> StreamRefView {
        match self {
            StreamRef::CommitId(c) => StreamRefView::CommitId(c@),
            StreamRef::StreamId(s) => StreamRefView::StreamId(s@),
        }
    }
}

/// A decoding or parsing outcome as a value.
pub open spec fn result_view(r: Result<StreamRef>) -> core::result::Result<StreamRefView, ErrorKind> {
    match r {
        Ok(x) => Ok(x@),
        Err(e) => Err(e@),
    }
}

/// What both kinds of identifier offer.
pub trait StreamRefExt {
    spec fn ref_stream_type(&self) -> StreamType;

    spec fn ref_cid(&self) -> Seq<u8>;

    spec fn ref_bytes(&self) -> Seq<u8>;

    /// The stream type.
    fn stream_type(&self) -> (r: StreamType)
        ensures
            r == self.ref_stream_type(),
    ;

    /// The genesis CID.
    fn cid(&self) -> (r: &Cid)
        ensures
            r@ == self.ref_cid(),
    ;

    /// A commit identifier of the same stream, pinned at `commit`.
    fn at_commit(&self, commit: Cid) -> (r: CommitId)
        ensures
            r@ == (CommitIdView {
                stream_type: self.ref_stream_type(),
                cid: self.ref_cid(),
                commit: Some(commit@),
            }),
    ;

    /// The stream identifier, without any commit.
    fn to_base_id(&self) -> (r: StreamId)
        ensures
            r@ == (StreamIdView { stream_type: self.ref_stream_type(), cid: self.ref_cid() }),
    ;

    /// The binary layout of the identifier.
    fn to_bytes(&self) -> (r: Vec<u8>)
        ensures
            r@ == self.ref_bytes(),
    ;

    /// The bytes in multibase base36.
    fn to_base36_string(&self) -> (r: String)
        ensures
            is_base36_encoding(r@, self.ref_bytes()),
    {
        let bytes = self.to_bytes();
        base36_encode(bytes.as_slice())
    }

    /// The base36 text behind the `ceramic://` scheme.
    fn to_url(&self) -> (r: String)
        ensures
            r@ == "ceramic://"@ + base36_text(self.ref_bytes()),
    {
        let text = self.to_base36_string();
        let mut url = String::from_str("ceramic://");
        url.append(text.as_str());
        url
    }
}

impl StreamRef {
    /// Decodes either kind of identifier from bytes.
    pub fn from_slice(value: &[u8]) -> (r: Result<StreamRef>)
        ensures
            result_view(r) == util::decode_spec(ParseMode::Either, value@),
    {
        util::try_from_slice(ParseMode::Either, value)
    }

    /// Parses either kind of identifier from its text or URL.
    pub fn parse(s: &str) -> (r: Result<StreamRef>)
        ensures
            result_view(r) == util::parse_spec(ParseMode::Either, s@),
    {
        util::from_str(ParseMode::Either, s)
    }

    /// The base36 text of the identifier.
    pub fn to_string(&self) -> (r: String)
        ensures
            is_base36_encoding(r@, self@.bytes()),
    {
        self.to_base36_string()
    }
}

impl StreamRefExt for StreamRef {
    open spec fn ref_stream_type(&self) -> StreamType {
        self@.stream_type()
    }

    open spec fn ref_cid(&self) -> Seq<u8> {
        self@.cid()
    }

    open spec fn ref_bytes(&self) -> Seq<u8> {
        self@.bytes()
    }

    fn stream_type(&self) -> (r: StreamType) {
        match self {
            StreamRef::StreamId(stream_id) => stream_id.stream_type(),
            StreamRef::CommitId(commit_id) => commit_id.stream_type(),
        }
    }

    fn cid(&self) -> (r: &Cid) {
        match self {
            StreamRef::StreamId(stream_id) => stream_id.cid(),
            StreamRef::CommitId(commit_id) => commit_id.cid(),
        }
    }

    fn at_commit(&self, commit: Cid) -> (r: CommitId) {
        match self {
            StreamRef::StreamId(stream_id) => stream_id.at_commit(commit),
            StreamRef::CommitId(commit_id) => commit_id.at_commit(commit),
        }
    }

    fn to_base_id(&self) -> (r: StreamId) {
        match self {
            StreamRef::StreamId(stream_id) => stream_id.to_base_id(),
            StreamRef::CommitId(commit_id) => commit_id.to_base_id(),
        }
    }

    fn to_bytes(&self) -> (r: Vec<u8>) {
        match self {
            StreamRef::StreamId(stream_id) => stream_id.to_bytes(),
            StreamRef::CommitId(commit_id) => commit_id.to_bytes(),
        }
    }
}

impl core::str::FromStr for StreamRef {
    type Err = crate::result::Error;

    fn from_str(s: &str) -> (r: Result<StreamRef>)
        ensures
            result_view(r) == util::parse_spec(ParseMode::Either, s@),
    {
        StreamRef::parse(s)
    }
}

} // verus!
