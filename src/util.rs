use vstd::prelude::*;
use vstd::string::*;

use crate::commit_id::{option_cid_view, CommitId, CommitIdView};
use crate::content_id::{bytes_eq, cid_parsed, cid_read, Cid};
use crate::encoding::{
    base36_encode, base36_text, multibase_bytes, multibase_decode, varint_u8, varint_u8_decode,
    varint_u8_encode, varint_u8_read,
};
use crate::result::{Error, ErrorKind, Result};
use crate::stream_id::{StreamId, StreamIdView};
use crate::stream_ref::{result_view, StreamRef, StreamRefView};
use crate::stream_type::StreamType;
use crate::STREAMID_CODEC;

verus! {

/// Which kinds of identifier a decoder or parser takes.
#[derive(Clone, Copy, Debug, PartialEq, Eq, Structural)]
pub enum ParseMode {
    /// Stream identifiers only.
    BaseOnly,
    /// Commit identifiers only.
    CommitOnly,
    /// Either kind.
    Either,
}

impl ParseMode {
    pub open spec fn spec_accepts_base(self) -> bool {
        self != ParseMode::CommitOnly
    }

    pub open spec fn spec_accepts_commit(self) -> bool {
        self != ParseMode::BaseOnly
    }

    /// The mode takes identifiers of this kind.
    pub open spec fn accepts(self, v: StreamRefView) -> bool {
        match v {
            StreamRefView::CommitId(_) => self.spec_accepts_commit(),
            StreamRefView::StreamId(_) => self.spec_accepts_base(),
        }
    }

    pub fn accepts_base(self) -> (r: bool)
        ensures
            r == self.spec_accepts_base(),
    {
        !matches!(self, ParseMode::CommitOnly)
    }

    pub fn accepts_commit(self) -> (r: bool)
        ensures
            r == self.spec_accepts_commit(),
    {
        !matches!(self, ParseMode::BaseOnly)
    }
}

/// The codec varint followed by the stream type varint.
pub open spec fn header(t: StreamType) -> Seq<u8> {
    varint_u8(STREAMID_CODEC) + varint_u8(t.spec_code())
}

pub(crate) fn write_header(t: StreamType) -> (r: Vec<u8>)
    ensures
        r@ == header(t),
{
    let mut out = varint_u8_encode(STREAMID_CODEC);
    let mut code = varint_u8_encode(t.to_code());
    out.append(&mut code);
    out
}

/// Decoding of what follows the genesis CID (`rest`), for the whole input `b`.
pub open spec fn decode_tail(
    mode: ParseMode,
    b: Seq<u8>,
    t: StreamType,
    g: Seq<u8>,
    rest: Seq<u8>,
) -> core::result::Result<StreamRefView, ErrorKind> {
    if mode.spec_accepts_base() && rest.len() == 0 {
        Ok(StreamRefView::StreamId(StreamIdView { stream_type: t, cid: g }))
    } else if !mode.spec_accepts_commit() {
        Err(ErrorKind::InvalidStreamIdBytes(base36_text(rest)))
    } else if rest.len() == 0 {
        Err(ErrorKind::InvalidCommitIdBytes(base36_text(b)))
    } else if rest == seq![0u8] {
        Ok(StreamRefView::CommitId(CommitIdView { stream_type: t, cid: g, commit: None }))
    } else {
        match cid_read(rest) {
            Some((c, n)) => if n == rest.len() {
                Ok(StreamRefView::CommitId(CommitIdView { stream_type: t, cid: g, commit: Some(c) }))
            } else {
                Err(ErrorKind::Cid)
            },
            None => Err(ErrorKind::Cid),
        }
    }
}

/// Decoding of the binary layout: codec varint, stream type varint, genesis
/// CID, then nothing, a zero byte or a commit CID.
pub open spec fn decode_spec(mode: ParseMode, b: Seq<u8>) -> core::result::Result<StreamRefView, ErrorKind> {
    match varint_u8_read(b) {
        None => Err(ErrorKind::VarintDecode),
        Some((tag, n1)) => if tag != STREAMID_CODEC {
            Err(ErrorKind::InvalidStreamRefCodec)
        } else {
            let b1 = b.subrange(n1, b.len() as int);
            match varint_u8_read(b1) {
                None => Err(ErrorKind::VarintDecode),
                Some((code, n2)) => match StreamType::spec_from_code(code) {
                    None => Err(ErrorKind::InvalidStreamTypeIndex(code)),
                    Some(t) => {
                        let b2 = b1.subrange(n2, b1.len() as int);
                        match cid_read(b2) {
                            None => Err(ErrorKind::Cid),
                            Some((g, n)) => decode_tail(mode, b, t, g, b2.subrange(n, b2.len() as int)),
                        }
                    },
                },
            }
        },
    }
}

/// Reads one CID from the front of `bytes`; also gives the bytes after it.
pub fn read_cid(bytes: &[u8]) -> (r: Result<(Cid, &[u8])>)
    ensures
        match r {
            Ok((c, rest)) => {
                &&& rest@.len() <= bytes@.len()
                &&& rest@ == bytes@.subrange(bytes@.len() - rest@.len(), bytes@.len() as int)
                &&& cid_read(bytes@) == Some((c@, bytes@.len() - rest@.len()))
            },
            Err(e) => cid_read(bytes@) is None && e is Cid,
        },
{
    Cid::read_prefix(bytes)
}

/// Decodes an identifier from its binary layout, taking the kinds that `mode` allows.
pub fn try_from_slice(mode: ParseMode, buf: &[u8]) -> (r: Result<StreamRef>)
    ensures
        result_view(r) == decode_spec(mode, buf@),
{
    let (tag, rest1) = match varint_u8_decode(buf) {
        Ok(x) => x,
        Err(e) => return Err(Error::VarintDecode(e)),
    };
    if tag != STREAMID_CODEC {
        return Err(Error::InvalidStreamRefCodec);
    }
    let (code, rest2) = match varint_u8_decode(rest1) {
        Ok(x) => x,
        Err(e) => return Err(Error::VarintDecode(e)),
    };
    let stream_type = match StreamType::from_code(code) {
        Ok(t) => t,
        Err(e) => return Err(e),
    };
    let (cid, rest) = match read_cid(rest2) {
        Ok(x) => x,
        Err(e) => return Err(e),
    };
    if mode.accepts_base() && rest.len() == 0 {
        return Ok(StreamRef::StreamId(StreamId { stream_type, cid }));
    }
    if !mode.accepts_commit() {
        return Err(Error::InvalidStreamIdBytes(base36_encode(rest)));
    }
    if rest.len() == 0 {
        return Err(Error::InvalidCommitIdBytes(base36_encode(buf)));
    }
    if rest.len() == 1 && rest[0] == 0 {
        assert(rest@ == seq![0u8]);
        return Ok(StreamRef::CommitId(CommitId { stream_type, cid, commit: None }));
    }
    assert(rest@ != seq![0u8]);
    let (commit, tail) = match read_cid(rest) {
        Ok(x) => x,
        Err(e) => return Err(e),
    };
    if tail.len() != 0 {
        return Err(Error::Cid(String::from_str("bytes left after the commit CID")));
    }
    Ok(StreamRef::CommitId(CommitId { stream_type, cid, commit: Some(commit) }))
}

/// Whatever `mode` is, decoding gives only the kinds it allows.
pub proof fn lemma_decode_accepts(mode: ParseMode, b: Seq<u8>)
    ensures
        decode_spec(mode, b) matches Ok(v) ==> mode.accepts(v),
{
}

/// A letter of either case or a decimal digit.
pub open spec fn is_alnum(c: char) -> bool {
    ('a' <= c && c <= 'z') || ('A' <= c && c <= 'Z') || ('0' <= c && c <= '9')
}

/// A non-empty run of letters and digits.
pub open spec fn is_token(s: Seq<char>) -> bool {
    s.len() > 0 && forall|i: int| 0 <= i < s.len() ==> is_alnum(#[trigger] s[i])
}

pub open spec fn has_prefix(s: Seq<char>, p: Seq<char>) -> bool {
    p.len() <= s.len() && s.subrange(0, p.len() as int) == p
}

/// `s` without a leading `ceramic://` or `/ceramic/`.
pub open spec fn strip_scheme(s: Seq<char>) -> Seq<char> {
    if has_prefix(s, "ceramic://"@) {
        s.subrange("ceramic://"@.len() as int, s.len() as int)
    } else if has_prefix(s, "/ceramic/"@) {
        s.subrange("/ceramic/"@.len() as int, s.len() as int)
    } else {
        s
    }
}

/// `body` is a token, then `?commit=` at `k`, then another token.
pub open spec fn query_at(body: Seq<char>, k: int) -> bool {
    &&& 0 <= k
    &&& k + "?commit="@.len() <= body.len()
    &&& is_token(body.subrange(0, k))
    &&& body.subrange(k, k + "?commit="@.len()) == "?commit="@
    &&& is_token(body.subrange(k + "?commit="@.len(), body.len() as int))
}

/// The URL grammar: an optional scheme, the identifier token and, where
/// `commit_aware`, an optional `?commit=` token. Gives the two tokens.
pub open spec fn url_parts(s: Seq<char>, commit_aware: bool) -> Option<(Seq<char>, Option<Seq<char>>)> {
    let body = strip_scheme(s);
    if is_token(body) {
        Some((body, None))
    } else if commit_aware && exists|k: int| query_at(body, k) {
        let k = choose|k: int| query_at(body, k);
        Some((body.subrange(0, k), Some(body.subrange(k + "?commit="@.len(), body.len() as int))))
    } else {
        None
    }
}

/// The error for a string that `mode` does not take.
pub open spec fn string_error(mode: ParseMode, s: Seq<char>) -> ErrorKind {
    match mode {
        ParseMode::Either => ErrorKind::InvalidStreamRefString(s),
        ParseMode::CommitOnly => ErrorKind::InvalidCommitIdString(s),
        ParseMode::BaseOnly => ErrorKind::InvalidStreamIdString(s),
    }
}

/// An identifier with the commit of a `?commit=` suffix put in: a commit
/// equal to the genesis counts as none, and a stream identifier becomes a
/// commit identifier.
pub open spec fn with_query_commit(v: StreamRefView, commit: Option<Seq<u8>>) -> StreamRefView {
    match v {
        StreamRefView::CommitId(c) => StreamRefView::CommitId(CommitIdView {
            stream_type: c.stream_type,
            cid: c.cid,
            commit: if commit == Some(c.cid) { None } else { commit },
        }),
        StreamRefView::StreamId(s) => StreamRefView::CommitId(CommitIdView {
            stream_type: s.stream_type,
            cid: s.cid,
            commit,
        }),
    }
}

/// Parsing of the text forms: the URL grammar, multibase decoding of the
/// token, decoding of its bytes, then the `?commit=` CID where one parses.
pub open spec fn parse_spec(mode: ParseMode, s: Seq<char>) -> core::result::Result<StreamRefView, ErrorKind> {
    match url_parts(s, mode.spec_accepts_commit()) {
        None => Err(string_error(mode, s)),
        Some((token, query)) => match multibase_bytes(token) {
            None => Err(string_error(mode, s)),
            Some(b) => match decode_spec(ParseMode::Either, b) {
                Err(e) => Err(e),
                Ok(v) => {
                    let refined = match query {
                        None => v,
                        Some(q) => with_query_commit(v, cid_parsed(q)),
                    };
                    if mode.accepts(refined) {
                        Ok(refined)
                    } else {
                        Err(string_error(mode, s))
                    }
                },
            },
        },
    }
}

fn is_alnum_char(c: char) -> (r: bool)
    ensures
        r == is_alnum(c),
{
    ('a' <= c && c <= 'z') || ('A' <= c && c <= 'Z') || ('0' <= c && c <= '9')
}

/// Whether `p` stands in `s` at character `at`.
fn literal_at(s: &str, n: usize, at: usize, p: &str) -> (r: bool)
    requires
        n == s@.len(),
        at <= n,
    ensures
        r == (at + p@.len() <= n && s@.subrange(at as int, at + p@.len()) == p@),
{
    let m = p.unicode_len();
    if m > n - at {
        return false;
    }
    let mut i: usize = 0;
    while i < m
        invariant
            n == s@.len(),
            m == p@.len(),
            at + m <= n,
            i <= m,
            s@.subrange(at as int, at + i) == p@.subrange(0, i as int),
        decreases m - i,
    {
        if s.get_char(at + i) != p.get_char(i) {
            assert(s@.subrange(at as int, at + m)[i as int] == s@[at + i]);
            return false;
        }
        assert(s@.subrange(at as int, at + i + 1) == s@.subrange(at as int, at + i).push(s@[at + i]));
        assert(p@.subrange(0, i + 1) == p@.subrange(0, i as int).push(p@[i as int]));
        i = i + 1;
    }
    assert(p@.subrange(0, m as int) == p@);
    true
}

/// The end of the run of letters and digits that starts at `from`.
fn token_end(s: &str, n: usize, from: usize) -> (k: usize)
    requires
        n == s@.len(),
        from <= n,
    ensures
        from <= k <= n,
        forall|i: int| from <= i < k ==> is_alnum(#[trigger] s@[i]),
        k < n ==> !is_alnum(s@[k as int]),
{
    let mut k = from;
    while k < n && is_alnum_char(s.get_char(k))
        invariant
            n == s@.len(),
            from <= k <= n,
            forall|i: int| from <= i < k ==> is_alnum(#[trigger] s@[i]),
        decreases n - k,
    {
        k = k + 1;
    }
    k
}

/// Only the end of the first run of letters and digits can hold `?commit=`.
proof fn lemma_query_at_unique(body: Seq<char>, k: int, k2: int)
    requires
        query_at(body, k2),
        0 <= k <= body.len(),
        forall|i: int| 0 <= i < k ==> is_alnum(#[trigger] body[i]),
        k < body.len() ==> !is_alnum(body[k]),
    ensures
        k2 == k,
{
    reveal_strlit("?commit=");
    assert(body.subrange(k2, k2 + 8)[0] == body[k2]);
    if k2 < k {
        assert(is_alnum(body[k2]));
    }
    if k2 > k {
        assert(body.subrange(0, k2)[k] == body[k]);
    }
}

/// Splits a string by the URL grammar into the identifier token and the
/// `?commit=` token, where `commit_aware` allows one.
pub fn split_url<'a>(s: &'a str, commit_aware: bool) -> (r: Option<(&'a str, Option<&'a str>)>)
    ensures
        match r {
            None => url_parts(s@, commit_aware) is None,
            Some((t, q)) => url_parts(s@, commit_aware) == Some((t@, match q {
                Some(x) => Some(x@),
                None => None,
            })),
        },
{
    let n = s.unicode_len();
    let scheme = "ceramic://";
    let legacy = "/ceramic/";
    let start: usize = if literal_at(s, n, 0, scheme) {
        scheme.unicode_len()
    } else if literal_at(s, n, 0, legacy) {
        legacy.unicode_len()
    } else {
        0
    };
    let ghost body = s@.subrange(start as int, n as int);
    assert(body == strip_scheme(s@));
    let k = token_end(s, n, start);
    assert forall|i: int| 0 <= i < k - start implies is_alnum(#[trigger] body[i]) by {
        assert(body[i] == s@[start + i]);
    }
    if k < n {
        assert(body[k - start] == s@[k as int]);
    }
    if k == n {
        if k > start {
            return Some((s.substring_char(start, n), None));
        }
        assert(!is_token(body));
        assert forall|k2: int| !query_at(body, k2) by {
            if query_at(body, k2) {
                lemma_query_at_unique(body, k - start, k2);
            }
        }
        return None;
    }
    assert(!is_token(body));
    if !commit_aware {
        return None;
    }
    if k == start {
        assert forall|k2: int| !query_at(body, k2) by {
            if query_at(body, k2) {
                lemma_query_at_unique(body, k - start, k2);
            }
        }
        return None;
    }
    let query = "?commit=";
    if !literal_at(s, n, k, query) {
        assert forall|k2: int| !query_at(body, k2) by {
            if query_at(body, k2) {
                lemma_query_at_unique(body, k - start, k2);
                assert(body.subrange(k2, k2 + query@.len()) == s@.subrange(k as int, k + query@.len()));
            }
        }
        return None;
    }
    let j = k + query.unicode_len();
    let m = token_end(s, n, j);
    let ghost qtok = body.subrange(j - start, body.len() as int);
    assert(qtok == s@.subrange(j as int, n as int));
    if m == n && m > j {
        assert(body.subrange(k - start, j - start) == s@.subrange(k as int, j as int));
        assert(body.subrange(0, k - start) == s@.subrange(start as int, k as int));
        assert forall|i: int| 0 <= i < qtok.len() implies is_alnum(#[trigger] qtok[i]) by {
            assert(qtok[i] == s@[j + i]);
        }
        assert forall|i: int| 0 <= i < k - start implies is_alnum(#[trigger] body.subrange(0, k - start)[i]) by {
            assert(body.subrange(0, k - start)[i] == body[i]);
        }
        assert(query_at(body, k - start));
        assert forall|k2: int| query_at(body, k2) implies k2 == k - start by {
            lemma_query_at_unique(body, k - start, k2);
        }
        return Some((s.substring_char(start, k), Some(s.substring_char(j, n))));
    }
    assert forall|k2: int| !query_at(body, k2) by {
        if query_at(body, k2) {
            lemma_query_at_unique(body, k - start, k2);
            if m < n {
                assert(qtok[m - j] == s@[m as int]);
            }
        }
    }
    None
}

fn string_error_of(mode: ParseMode, s: &str) -> (r: Error)
    ensures
        r@ == string_error(mode, s@),
{
    let text = String::from_str(s);
    match mode {
        ParseMode::Either => Error::InvalidStreamRefString(text),
        ParseMode::CommitOnly => Error::InvalidCommitIdString(text),
        ParseMode::BaseOnly => Error::InvalidStreamIdString(text),
    }
}

fn put_query_commit(v: StreamRef, commit: Option<Cid>) -> (r: StreamRef)
    ensures
        r@ == with_query_commit(v@, option_cid_view(commit)),
{
    match v {
        StreamRef::CommitId(c) => {
            let commit = match commit {
                Some(q) => if bytes_eq(q.as_bytes(), c.cid.as_bytes()) {
                    None
                } else {
                    Some(q)
                },
                None => None,
            };
            StreamRef::CommitId(CommitId { stream_type: c.stream_type, cid: c.cid, commit })
        },
        StreamRef::StreamId(s) => StreamRef::CommitId(
            CommitId { stream_type: s.stream_type, cid: s.cid, commit },
        ),
    }
}

fn accepts_ref(mode: ParseMode, v: &StreamRef) -> (r: bool)
    ensures
        r == mode.accepts(v@),
{
    match v {
        StreamRef::CommitId(_) => mode.accepts_commit(),
        StreamRef::StreamId(_) => mode.accepts_base(),
    }
}

/// Parses an identifier from its text or URL forms, taking the kinds that `mode` allows.
pub fn from_str(mode: ParseMode, s: &str) -> (r: Result<StreamRef>)
    ensures
        result_view(r) == parse_spec(mode, s@),
{
    let (token, query) = match split_url(s, mode.accepts_commit()) {
        Some(parts) => parts,
        None => return Err(string_error_of(mode, s)),
    };
    let bytes = match multibase_decode(token) {
        Some(b) => b,
        None => return Err(string_error_of(mode, s)),
    };
    let decoded = match try_from_slice(ParseMode::Either, bytes.as_slice()) {
        Ok(v) => v,
        Err(e) => return Err(e),
    };
    let refined = match query {
        None => decoded,
        Some(q) => {
            let commit = match Cid::parse(q) {
                Ok(c) => Some(c),
                Err(_) => None,
            };
            put_query_commit(decoded, commit)
        },
    };
    if accepts_ref(mode, &refined) {
        Ok(refined)
    } else {
        Err(string_error_of(mode, s))
    }
}

/// Whatever `mode` is, parsing gives only the kinds it allows.
pub proof fn lemma_parse_accepts(mode: ParseMode, s: Seq<char>)
    ensures
        parse_spec(mode, s) matches Ok(v) ==> mode.accepts(v),
{
}

} // verus!
