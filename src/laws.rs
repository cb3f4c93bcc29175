use vstd::prelude::*;

use crate::commit_id::CommitIdView;
use crate::content_id::{cid_parsed, cid_read, cid_wf};
use crate::encoding::{is_base36_encoding, varint_u8, varint_u8_read};
use crate::result::ErrorKind;
use crate::stream_id::StreamIdView;
use crate::stream_ref::StreamRefView;
use crate::stream_type::StreamType;
use crate::util::{
    decode_spec, decode_tail, has_prefix, header, is_token, parse_spec, strip_scheme, url_parts,
    ParseMode,
};
use crate::STREAMID_CODEC;

verus! {

/// The identifier that a parse gives, if it gives one.
pub open spec fn parsed_value(r: core::result::Result<StreamRefView, ErrorKind>) -> Option<StreamRefView> {
    match r {
        Ok(v) => Some(v),
        Err(_) => None,
    }
}

/// Bytes laid out as header, CID and tail decode as that tail after that CID.
proof fn lemma_decode_layout(mode: ParseMode, t: StreamType, g: Seq<u8>, tail: Seq<u8>)
    requires
        cid_wf(g),
    ensures
        decode_spec(mode, header(t) + g + tail) == decode_tail(mode, header(t) + g + tail, t, g, tail),
{
    let b = header(t) + g + tail;
    assert(varint_u8(STREAMID_CODEC) == seq![206u8, 1u8]);
    assert(varint_u8(t.spec_code()) == seq![t.spec_code()]);
    assert(b[0] == 206u8 && b[1] == 1u8);
    assert(varint_u8_read(b) == Some((206u8, 2int)));
    let b1 = b.subrange(2, b.len() as int);
    assert(b1 =~= seq![t.spec_code()] + (g + tail));
    assert(varint_u8_read(b1) == Some((t.spec_code(), 1int)));
    assert(StreamType::spec_from_code(t.spec_code()) == Some(t));
    let b2 = b1.subrange(1, b1.len() as int);
    assert(b2 =~= g + tail);
    assert(cid_read(g + tail) == Some((g, g.len() as int)));
    assert(b2.subrange(g.len() as int, b2.len() as int) =~= tail);
}

/// A CID's serialization read on its own gives the whole of it.
proof fn lemma_cid_alone(c: Seq<u8>)
    requires
        cid_wf(c),
    ensures
        cid_read(c) == Some((c, c.len() as int)),
{
    assert(c + Seq::<u8>::empty() =~= c);
    assert(cid_read(c + Seq::<u8>::empty()) == Some((c, c.len() as int)));
}

/// Decoding the bytes of a valid stream identifier gives it back, in every
/// mode that takes stream identifiers.
pub proof fn lemma_stream_id_bytes_round_trip(mode: ParseMode, x: StreamIdView)
    requires
        x.wf(),
        mode.spec_accepts_base(),
    ensures
        decode_spec(mode, x.bytes()) == Ok::<StreamRefView, ErrorKind>(StreamRefView::StreamId(x)),
{
    lemma_decode_layout(mode, x.stream_type, x.cid, Seq::empty());
    assert(header(x.stream_type) + x.cid + Seq::<u8>::empty() =~= x.bytes());
}

/// Decoding the bytes of a valid commit identifier gives it back, with or
/// without a commit, in every mode that takes commit identifiers.
pub proof fn lemma_commit_id_bytes_round_trip(mode: ParseMode, x: CommitIdView)
    requires
        x.wf(),
        mode.spec_accepts_commit(),
    ensures
        decode_spec(mode, x.bytes()) == Ok::<StreamRefView, ErrorKind>(StreamRefView::CommitId(x)),
{
    lemma_decode_layout(mode, x.stream_type, x.cid, x.tail());
    if let Some(c) = x.commit {
        lemma_cid_alone(c);
        assert(c != seq![0u8]);
    }
}

/// Decoding the bytes of any valid identifier as either kind gives it back.
pub proof fn lemma_bytes_round_trip(x: StreamRefView)
    requires
        x.wf(),
    ensures
        decode_spec(ParseMode::Either, x.bytes()) == Ok::<StreamRefView, ErrorKind>(x),
{
    match x {
        StreamRefView::StreamId(s) => lemma_stream_id_bytes_round_trip(ParseMode::Either, s),
        StreamRefView::CommitId(c) => lemma_commit_id_bytes_round_trip(ParseMode::Either, c),
    }
}

/// The base36 text of a valid identifier parses back to the identifier in
/// every mode that takes its kind, so its text comes out the same again.
pub proof fn lemma_string_round_trip(mode: ParseMode, x: StreamRefView, text: Seq<char>)
    requires
        x.wf(),
        mode.accepts(x),
        is_base36_encoding(text, x.bytes()),
    ensures
        parse_spec(mode, text) == Ok::<StreamRefView, ErrorKind>(x),
{
    reveal_strlit("ceramic://");
    reveal_strlit("/ceramic/");
    assert(text.subrange(0, 1)[0] == text[0]);
    assert(!has_prefix(text, "ceramic://"@));
    assert(!has_prefix(text, "/ceramic/"@));
    assert(strip_scheme(text) == text);
    assert(is_token(text));
    assert(url_parts(text, mode.spec_accepts_commit()) == Some((text, None::<Seq<char>>)));
    lemma_bytes_round_trip(x);
}

/// The absent commit is written as the single zero byte after the genesis,
/// and that sentinel decodes back to the absent commit; the effective commit
/// is then the genesis.
pub proof fn lemma_zero_commit_sentinel(mode: ParseMode, t: StreamType, g: Seq<u8>)
    requires
        cid_wf(g),
        mode.spec_accepts_commit(),
    ensures
        (CommitIdView { stream_type: t, cid: g, commit: None }).bytes() == header(t) + g + seq![0u8],
        decode_spec(mode, header(t) + g + seq![0u8]) == Ok::<StreamRefView, ErrorKind>(
            StreamRefView::CommitId(CommitIdView { stream_type: t, cid: g, commit: None }),
        ),
        (CommitIdView { stream_type: t, cid: g, commit: None }).effective_commit()
            == (CommitIdView { stream_type: t, cid: g, commit: Some(g) }).effective_commit(),
{
    lemma_commit_id_bytes_round_trip(mode, CommitIdView { stream_type: t, cid: g, commit: None });
}

/// A `?commit=` value that is not a CID (such as `0`) stands for the absent
/// commit: any identifier's text with it parses to the zero-commit
/// identifier. So does a commit identifier's text with a `?commit=` naming
/// its genesis.
pub proof fn lemma_sentinel_commit_query(
    mode: ParseMode,
    t: StreamType,
    g: Seq<u8>,
    x: StreamRefView,
    text: Seq<char>,
    query: Seq<char>,
)
    requires
        x.wf(),
        x.stream_type() == t,
        x.cid() == g,
        mode.spec_accepts_commit(),
        is_base36_encoding(text, x.bytes()),
        is_token(query),
        cid_parsed(query) is None || (x is CommitId && cid_parsed(query) == Some(g)),
    ensures
        parse_spec(mode, text + "?commit="@ + query) == Ok::<StreamRefView, ErrorKind>(
            StreamRefView::CommitId(CommitIdView { stream_type: t, cid: g, commit: None }),
        ),
{
    reveal_strlit("ceramic://");
    reveal_strlit("/ceramic/");
    reveal_strlit("?commit=");
    let s = text + "?commit="@ + query;
    assert(s.subrange(0, 1)[0] == text[0]);
    assert(!has_prefix(s, "ceramic://"@));
    assert(!has_prefix(s, "/ceramic/"@));
    assert(strip_scheme(s) == s);
    assert(s[text.len() as int] == '?');
    assert(!is_token(s));
    let k = text.len() as int;
    assert(s.subrange(0, k) =~= text);
    assert(s.subrange(k, k + 8) =~= "?commit="@);
    assert(s.subrange(k + 8, s.len() as int) =~= query);
    assert(crate::util::query_at(s, k));
    assert forall|k2: int| crate::util::query_at(s, k2) implies k2 == k by {
        assert(s.subrange(k2, k2 + 8)[0] == s[k2]);
        if k2 < k {
            assert(s.subrange(0, k)[k2] == s[k2]);
            assert(text[k2] == s[k2]);
        }
        if k2 > k {
            assert(s.subrange(0, k2)[k] == s[k]);
        }
    }
    assert(url_parts(s, true) == Some((text, Some(query))));
    lemma_bytes_round_trip(x);
}

/// Bytes whose first varint is not the identifier codec are refused with the
/// codec error, whatever follows and whatever the mode.
pub proof fn lemma_codec_tag_rejection(mode: ParseMode, b: Seq<u8>)
    requires
        varint_u8_read(b) matches Some((tag, _)) && tag != STREAMID_CODEC,
    ensures
        decode_spec(mode, b) == Err::<StreamRefView, ErrorKind>(ErrorKind::InvalidStreamRefCodec),
{
}

/// The bytes of a stream identifier are refused where only commit
/// identifiers are taken, and taken where either kind is.
pub proof fn lemma_stream_id_shape(x: StreamIdView)
    requires
        x.wf(),
    ensures
        decode_spec(ParseMode::CommitOnly, x.bytes()) is Err,
        decode_spec(ParseMode::Either, x.bytes()) == Ok::<StreamRefView, ErrorKind>(StreamRefView::StreamId(x)),
{
    lemma_decode_layout(ParseMode::CommitOnly, x.stream_type, x.cid, Seq::empty());
    assert(header(x.stream_type) + x.cid + Seq::<u8>::empty() =~= x.bytes());
    lemma_stream_id_bytes_round_trip(ParseMode::Either, x);
}

/// The bytes of a commit identifier are refused where only stream
/// identifiers are taken, and taken where commit identifiers are.
pub proof fn lemma_commit_id_shape(x: CommitIdView)
    requires
        x.wf(),
    ensures
        decode_spec(ParseMode::BaseOnly, x.bytes()) is Err,
        decode_spec(ParseMode::CommitOnly, x.bytes()) == Ok::<StreamRefView, ErrorKind>(StreamRefView::CommitId(x)),
{
    lemma_decode_layout(ParseMode::BaseOnly, x.stream_type, x.cid, x.tail());
    if let Some(c) = x.commit {
        assert(c.len() > 0);
    }
    lemma_commit_id_bytes_round_trip(ParseMode::CommitOnly, x);
}

/// `/ceramic/<s>`, `ceramic://<s>` and `<s>` parse to the same identifier,
/// or all fail, for any `s` that does not itself start with a scheme.
pub proof fn lemma_legacy_url(mode: ParseMode, s: Seq<char>)
    requires
        !has_prefix(s, "ceramic://"@),
        !has_prefix(s, "/ceramic/"@),
    ensures
        parsed_value(parse_spec(mode, "/ceramic/"@ + s)) == parsed_value(parse_spec(mode, s)),
        parsed_value(parse_spec(mode, "ceramic://"@ + s)) == parsed_value(parse_spec(mode, s)),
{
    reveal_strlit("ceramic://");
    reveal_strlit("/ceramic/");
    let a = "ceramic://"@ + s;
    let l = "/ceramic/"@ + s;
    assert(a.subrange(0, 10) =~= "ceramic://"@);
    assert(a.subrange(10, a.len() as int) =~= s);
    assert(strip_scheme(a) == s);
    assert(l.subrange(0, 1)[0] == '/');
    assert(!has_prefix(l, "ceramic://"@));
    assert(l.subrange(0, 9) =~= "/ceramic/"@);
    assert(l.subrange(9, l.len() as int) =~= s);
    assert(strip_scheme(l) == s);
    assert(strip_scheme(s) == s);
}

} // verus!
