//! Identifiers for content-addressed streams: a stream is named by its
//! genesis CID and a type tag, and a revision of it by a pinned commit CID.
//! Both have a compact binary layout and a base36 text form.

mod commit_id;
mod content_id;
mod encoding;
mod laws;
mod result;
mod stream_id;
mod stream_ref;
mod stream_type;
mod util;

pub use commit_id::{CommitId, CommitIdView};
pub use content_id::{bytes_eq, cid_parsed, cid_read, cid_text, cid_wf, Cid};
pub use encoding::{
    base36_text, is_base36_digit, is_base36_encoding, multibase_bytes, varint_u8, varint_u8_read,
};
pub use laws::{
    lemma_bytes_round_trip, lemma_codec_tag_rejection,
    lemma_commit_id_bytes_round_trip, lemma_commit_id_shape, lemma_legacy_url,
    lemma_stream_id_bytes_round_trip, lemma_stream_id_shape, lemma_string_round_trip,
    lemma_sentinel_commit_query, lemma_zero_commit_sentinel, parsed_value,
};
pub use result::{Error, ErrorKind, Result};
pub use stream_id::{StreamId, StreamIdView};
pub use stream_ref::{result_view, StreamRef, StreamRefExt, StreamRefView};
pub use stream_type::StreamType;
pub use util::{
    decode_spec, from_str, header, parse_spec, read_cid, split_url, try_from_slice, url_parts, ParseMode,
};

use vstd::prelude::*;

verus! {

/// The multicodec code that starts the binary layout of every identifier.
pub const STREAMID_CODEC: u8 = 206;

} // verus!
