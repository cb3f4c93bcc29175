use vstd::prelude::*;

use crate::content_id::Cid;
use crate::result::Result;
use crate::stream_id::{StreamId, StreamIdView};
use crate::stream_ref::{StreamRef, StreamRefExt, StreamRefView};
use crate::stream_type::StreamType;
use crate::util::{self, header, ParseMode};

verus! {

/// A commit identifier: the stream type, the genesis CID and the pinned
/// commit, where no commit means the stream at its genesis.
///
/// Its bytes are those of the stream identifier followed by the commit CID's
/// bytes, or by the single byte zero when there is no commit.
#[derive(Clone, Debug, PartialEq, Eq, Hash)]
pub struct CommitId {
    pub stream_type: StreamType,
    pub cid: Cid,
    pub commit: Option<Cid>,
}

/// A commit identifier as a value.
pub struct CommitIdView {
    pub stream_type: StreamType,
    pub cid: Seq<u8>,
    pub commit: Option<Seq<u8>>,
}

impl CommitIdView {
    /// The genesis and the commit, if any, are serializations of CIDs.
    pub open spec fn wf(self) -> bool {
        &&& crate::content_id::cid_wf(self.cid)
        &&& self.commit matches Some(c) ==> crate::content_id::cid_wf(c)
    }

    /// What follows the genesis CID in the binary layout.
    pub open spec fn tail(self) -> Seq<u8> {
        match self.commit {
            Some(c) => c,
            None => seq![0u8],
        }
    }

    /// The binary layout of the identifier.
    pub open spec fn bytes(self) -> Seq<u8> {
        header(self.stream_type) + self.cid + self.tail()
    }

    /// The commit the identifier points at: the genesis when there is none.
    pub open spec fn effective_commit(self) -> Seq<u8> {
        match self.commit {
            Some(c) => c,
            None => self.cid,
        }
    }
}

pub open spec fn option_cid_view(c: Option<Cid>) -> Option<Seq<u8>> {
    match c {
        Some(x) => Some(x@),
        None => None,
    }
}

impl View for CommitId {
    type V = CommitIdView;

    open spec fn view(&self) -> CommitIdView {
        CommitIdView {
            stream_type: self.stream_type,
            cid: self.cid@,
            commit: option_cid_view(self.commit),
        }
    }
}

impl CommitId {
    /// The commit CID, which is the genesis CID when no commit is pinned.
    pub fn commit(&self) -> (r: Cid)
        ensures
            r@ == self@.effective_commit(),
    {
        match &self.commit {
            Some(c) => c.clone(),
            None => self.cid.clone(),
        }
    }

    /// Decodes a commit identifier from bytes; bytes without commit information are refused.
    pub fn from_slice(value: &[u8]) -> (r: Result<CommitId>)
        ensures
            match r {
                Ok(c) => util::decode_spec(ParseMode::CommitOnly, value@) == Ok::<StreamRefView, crate::result::ErrorKind>(StreamRefView::CommitId(c@)),
                Err(e) => util::decode_spec(ParseMode::CommitOnly, value@) == Err::<StreamRefView, crate::result::ErrorKind>(e@),
            },
    {
        match util::try_from_slice(ParseMode::CommitOnly, value) {
            Ok(StreamRef::CommitId(c)) => Ok(c),
            Ok(StreamRef::StreamId(_)) => {
                proof {
                    util::lemma_decode_accepts(ParseMode::CommitOnly, value@);
                }
                vstd::pervasive::unreached()
            },
            Err(e) => Err(e),
        }
    }

    /// Parses a commit identifier from its text or URL, with an optional
    /// `?commit=` suffix.
    pub fn parse(s: &str) -> (r: Result<CommitId>)
        ensures
            match r {
                Ok(x) => util::parse_spec(ParseMode::CommitOnly, s@) == Ok::<StreamRefView, crate::result::ErrorKind>(StreamRefView::CommitId(x@)),
                Err(e) => util::parse_spec(ParseMode::CommitOnly, s@) == Err::<StreamRefView, crate::result::ErrorKind>(e@),
            },
    {
        match util::from_str(ParseMode::CommitOnly, s) {
            Ok(StreamRef::CommitId(x)) => Ok(x),
            Ok(StreamRef::StreamId(_)) => {
                proof {
                    util::lemma_parse_accepts(ParseMode::CommitOnly, s@);
                }
                vstd::pervasive::unreached()
            },
            Err(e) => Err(e),
        }
    }

    /// The base36 text of the identifier.
    pub fn to_string(&self) -> (r: String)
        ensures
            crate::encoding::is_base36_encoding(r@, self@.bytes()),
    {
        self.to_base36_string()
    }
}

impl StreamRefExt for CommitId {
    open spec fn ref_stream_type(&self) -> StreamType {
        self.stream_type
    }

    open spec fn ref_cid(&self) -> Seq<u8> {
        self.cid@
    }

    open spec fn ref_bytes(&self) -> Seq<u8> {
        self@.bytes()
    }

    fn stream_type(&self) -> (r: StreamType) {
        self.stream_type
    }

    fn cid(&self) -> (r: &Cid) {
        &self.cid
    }

    fn at_commit(&self, commit: Cid) -> (r: CommitId) {
        CommitId { stream_type: self.stream_type, cid: self.cid.clone(), commit: Some(commit) }
    }

    fn to_base_id(&self) -> (r: StreamId) {
        StreamId { stream_type: self.stream_type, cid: self.cid.clone() }
    }

    fn to_bytes(&self) -> (r: Vec<u8>) {
        let mut out = util::write_header(self.stream_type);
        let mut cid = self.cid.to_bytes();
        out.append(&mut cid);
        let mut tail = match &self.commit {
            Some(c) => c.to_bytes(),
            None => vec![0u8],
        };
        out.append(&mut tail);
        out
    }
}

impl core::str::FromStr for CommitId {
    type Err = crate::result::Error;

    fn from_str(s: &str) -> (r: Result<CommitId>)
        ensures
            match r {
                Ok(x) => util::parse_spec(ParseMode::CommitOnly, s@) == Ok::<StreamRefView, crate::result::ErrorKind>(StreamRefView::CommitId(x@)),
                Err(e) => util::parse_spec(ParseMode::CommitOnly, s@) == Err::<StreamRefView, crate::result::ErrorKind>(e@),
            },
    {
        CommitId::parse(s)
    }
}

} // verus!
