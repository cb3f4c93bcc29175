use vstd::prelude::*;
use vstd::string::*;

use crate::result::{Error, Result};

verus! {

/// What the CID reader finds at the front of `b`: the serialization of the
/// CID it reads and the number of bytes it consumes; `None` where no CID can
/// be read there. The reader also takes some non-canonical varints, so the
/// bytes consumed need not be that serialization.
pub uninterp spec fn cid_read(b: Seq<u8>) -> Option<(Seq<u8>, int)>;

/// The serialization of the CID that the text `s` names; `None` where `s`
/// is not a CID.
pub uninterp spec fn cid_parsed(s: Seq<char>) -> Option<Seq<u8>>;

/// The canonical text of the CID serialized as `b`.
pub uninterp spec fn cid_text(b: Seq<u8>) -> Seq<char>;

/// `b` is the serialization of a CID: read with anything after it, it gives
/// itself and takes exactly its own bytes; and it is longer than one byte.
pub open spec fn cid_wf(b: Seq<u8>) -> bool {
    &&& b.len() >= 2
    &&& forall|rest: Seq<u8>| #[trigger] cid_read(b + rest) == Some((b, b.len() as int))
}

/// Relies on Cid::read_bytes to read one CID from the front of `b`, and on
/// Cid::to_bytes for its serialization; also hands back the bytes the reader
/// left. A serialization reads back as itself and takes its own length. An
/// error comes as its message.
#[verifier::external_body]
fn read_cid_bytes<'a>(b: &'a [u8]) -> (r: core::result::Result<(Vec<u8>, &'a [u8]), String>)
    ensures
        match r {
            Ok((c, rest)) => {
                &&& rest@.len() <= b@.len()
                &&& rest@ == b@.subrange(b@.len() - rest@.len(), b@.len() as int)
                &&& cid_read(b@) == Some((c@, b@.len() - rest@.len()))
                &&& cid_wf(c@)
            },
            Err(_) => cid_read(b@) is None,
        },
{
    let mut rest = b;
    match cid::Cid::read_bytes(&mut rest) {
        Ok(c) => Ok((c.to_bytes(), rest)),
        Err(e) => Err(e.to_string()),
    }
}

/// Relies on Cid's FromStr to parse a CID from text, and on Cid::to_bytes.
/// Text shorter than two characters is refused. An error comes as its message.
#[verifier::external_body]
fn parse_cid(s: &str) -> (r: core::result::Result<Vec<u8>, String>)
    ensures
        match r {
            Ok(c) => cid_parsed(s@) == Some(c@) && cid_wf(c@),
            Err(_) => cid_parsed(s@) is None,
        },
        s@.len() < 2 ==> r is Err,
{
    <cid::Cid as core::str::FromStr>::from_str(s).map(|c| c.to_bytes()).map_err(|e| e.to_string())
}

/// Relies on Cid's Display for the text of a CID read from its serialization.
#[verifier::external_body]
fn format_cid(b: &[u8]) -> (r: String)
    requires
        cid_read(b@) is Some,
    ensures
        r@ == cid_text(b@),
{
    cid::Cid::try_from(b).unwrap().to_string()
}

/// A content identifier, held as its serialization.
#[derive(Debug, Eq, Hash)]
pub struct Cid {
    bytes: Vec<u8>,
}

impl View for Cid {
    type V = Seq<u8>;

    closed spec fn view(&self) -> Seq<u8> {
        self.bytes@
    }
}

impl Cid {
    #[verifier::type_invariant]
    spec fn well_formed(self) -> bool {
        cid_wf(self.bytes@)
    }

    /// Reads one CID from the front of `b`; also gives the bytes after it.
    pub fn read_prefix(b: &[u8]) -> (r: Result<(Cid, &[u8])>)
        ensures
            match r {
                Ok((c, rest)) => {
                    &&& rest@.len() <= b@.len()
                    &&& rest@ == b@.subrange(b@.len() - rest@.len(), b@.len() as int)
                    &&& cid_read(b@) == Some((c@, b@.len() - rest@.len()))
                    &&& cid_wf(c@)
                },
                Err(e) => cid_read(b@) is None && e is Cid,
            },
    {
        match read_cid_bytes(b) {
            Ok((bytes, rest)) => Ok((Cid { bytes }, rest)),
            Err(e) => Err(Error::Cid(e)),
        }
    }

    /// Parses a CID from its text.
    pub fn parse(s: &str) -> (r: Result<Cid>)
        ensures
            match r {
                Ok(c) => cid_parsed(s@) == Some(c@) && cid_wf(c@),
                Err(e) => cid_parsed(s@) is None && e is Cid,
            },
            s@.len() < 2 ==> r is Err,
    {
        match parse_cid(s) {
            Ok(bytes) => Ok(Cid { bytes }),
            Err(e) => Err(Error::Cid(e)),
        }
    }

    /// The serialization of the CID.
    pub fn to_bytes(&self) -> (r: Vec<u8>)
        ensures
            r@ == self@,
            cid_wf(r@),
    {
        proof {
            use_type_invariant(self);
        }
        vstd::slice::slice_to_vec(self.bytes.as_slice())
    }

    pub fn as_bytes(&self) -> (r: &[u8])
        ensures
            r@ == self@,
            cid_wf(r@),
    {
        proof {
            use_type_invariant(self);
        }
        self.bytes.as_slice()
    }

    /// The canonical text of the CID.
    pub fn to_string(&self) -> (r: String)
        ensures
            r@ == cid_text(self@),
    {
        proof {
            use_type_invariant(self);
            assert(self.bytes@ + Seq::<u8>::empty() == self.bytes@);
            assert(cid_read(self.bytes@ + Seq::<u8>::empty()) is Some);
        }
        format_cid(self.bytes.as_slice())
    }
}

impl Clone for Cid {
    fn clone(&self) -> (r: Self)
        ensures
            r@ == self@,
    {
        proof {
            use_type_invariant(self);
        }
        Cid { bytes: vstd::slice::slice_to_vec(self.bytes.as_slice()) }
    }
}

impl PartialEq for Cid {
    fn eq(&self, other: &Cid) -> (r: bool) {
        bytes_eq(self.bytes.as_slice(), other.bytes.as_slice())
    }
}

impl vstd::std_specs::cmp::PartialEqSpecImpl for Cid {
    open spec fn obeys_eq_spec() -> bool {
        true
    }

    open spec fn eq_spec(&self, other: &Cid) -> bool {
        self@ == other@
    }
}

impl core::str::FromStr for Cid {
    type Err = Error;

    fn from_str(s: &str) -> (r: Result<Cid>)
        ensures
            match r {
                Ok(c) => cid_parsed(s@) == Some(c@) && cid_wf(c@),
                Err(e) => cid_parsed(s@) is None && e is Cid,
            },
            s@.len() < 2 ==> r is Err,
    {
        Cid::parse(s)
    }
}

/// Byte-wise equality of two slices.
pub fn bytes_eq(a: &[u8], b: &[u8]) -> (r: bool)
    ensures
        r == (a@ == b@),
{
    if a.len() != b.len() {
        return false;
    }
    let mut i: usize = 0;
    while i < a.len()
        invariant
            a@.len() == b@.len(),
            i <= a@.len(),
            a@.subrange(0, i as int) == b@.subrange(0, i as int),
        decreases a@.len() - i,
    {
        if a[i] != b[i] {
            return false;
        }
        assert(a@.subrange(0, i + 1) == a@.subrange(0, i as int).push(a@[i as int]));
        assert(b@.subrange(0, i + 1) == b@.subrange(0, i as int).push(b@[i as int]));
        i = i + 1;
    }
    assert(a@ == a@.subrange(0, a@.len() as int));
    assert(b@ == b@.subrange(0, b@.len() as int));
    true
}

} // verus!
