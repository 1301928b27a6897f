//! Fetched messages and how they are shown, and the decisions of the fetch
//! loop: where reading starts and when it stops.

use vstd::prelude::*;
use vstd::string::*;
use vstd::utf8::*;
use crate::decoder::json::{json_accepts, json_pretty, try_pretty_json};
use crate::text::{collapse_white_space, collapse_whitespace, decimal, owned, push_decimal, push_str, utf8_str};

verus! {

broadcast use vstd::utf8::encode_utf8_decode_utf8;

/// Messages fetched per page.
pub const PAGE_SIZE: usize = 50;

/// A single Kafka message.
#[derive(Debug, Clone)]
pub struct KafkaMessage {
    pub topic: String,
    pub partition: i32,
    pub offset: i64,
    pub key: Option<Vec<u8>>,
    pub payload: Option<Vec<u8>>,
    /// Milliseconds since the Unix epoch, when the message carries a timestamp
    pub timestamp: Option<i64>,
    pub headers: Vec<(String, Vec<u8>)>,
}

/// UTF-8 bytes as text, anything else as a size marker `<binary NB>`.
pub open spec fn text_or_size(b: Seq<u8>) -> Seq<char> {
    if valid_utf8(b) {
        decode_utf8(b)
    } else {
        "<binary "@ + decimal(b.len()) + "B>"@
    }
}

/// How a key is shown: `(null)` when absent.
pub open spec fn key_text(key: Option<Vec<u8>>) -> Seq<char> {
    match key {
        None => "(null)"@,
        Some(k) => text_or_size(k@),
    }
}

/// A preview cut to `max_len` bytes of UTF-8, with an ellipsis when cut.
pub open spec fn cut_preview(c: Seq<char>, max_len: nat) -> Seq<char> {
    if encode_utf8(c).len() > max_len {
        decode_utf8(encode_utf8(c).take(max_len as int)) + "…"@
    } else {
        c
    }
}

/// Whether a cut at `max_len` bytes falls between characters (or is not needed).
pub open spec fn cut_allowed(c: Seq<char>, max_len: nat) -> bool {
    encode_utf8(c).len() <= max_len || is_char_boundary(encode_utf8(c), max_len as int)
}

/// The collapsed text a payload preview is cut from.
pub open spec fn preview_source(payload: Seq<u8>) -> Seq<char> {
    collapse_whitespace(text_or_size(payload))
}

/// How a payload is previewed in a list: whitespace collapsed, cut to `max_len` bytes.
pub open spec fn preview_text(payload: Option<Vec<u8>>, max_len: nat) -> Seq<char> {
    match payload {
        None => "(null)"@,
        Some(p) => cut_preview(preview_source(p@), max_len),
    }
}

/// Whether a preview of `max_len` bytes can be cut from the payload.
pub open spec fn preview_allowed(payload: Option<Vec<u8>>, max_len: nat) -> bool {
    match payload {
        None => true,
        Some(p) => cut_allowed(preview_source(p@), max_len),
    }
}

fn text_or_size_of(b: &[u8], unit: &str) -> (r: String)
    ensures
        valid_utf8(b@) ==> r@ == decode_utf8(b@),
        !valid_utf8(b@) ==> r@ == "<binary "@ + decimal(b@.len()) + unit@,
{
    match utf8_str(b) {
        Some(t) => owned(t),
        None => {
            let mut s = owned("<binary ");
            push_decimal(&mut s, b.len() as u64);
            push_str(&mut s, unit);
            s
        },
    }
}

impl KafkaMessage {
    /// The key as text: `(null)` when absent, a size marker when not UTF-8.
    pub fn key_display(&self) -> (r: String)
        ensures
            r@ == key_text(self.key),
    {
        match &self.key {
            None => owned("(null)"),
            Some(k) => text_or_size_of(k.as_slice(), "B>"),
        }
    }

    fn preview_base(p: &Vec<u8>) -> (r: String)
        ensures
            r@ == preview_source(p@),
    {
        let s = text_or_size_of(p.as_slice(), "B>");
        collapse_white_space(s.as_str())
    }

    /// Whether `value_preview(max_len)` can cut the payload; cutting inside a
    /// character is refused.
    pub fn value_preview_fits(&self, max_len: usize) -> (b: bool)
        ensures
            b == preview_allowed(self.payload, max_len as nat),
    {
        match &self.payload {
            None => true,
            Some(p) => {
                let c = Self::preview_base(p);
                c.as_str().as_bytes().len() <= max_len || c.as_str().is_char_boundary(max_len)
            },
        }
    }

    /// A one-line preview of the payload: whitespace runs collapsed to single
    /// spaces, cut to `max_len` bytes with a trailing ellipsis when longer.
    pub fn value_preview(&self, max_len: usize) -> (r: String)
        requires
            preview_allowed(self.payload, max_len as nat),
        ensures
            r@ == preview_text(self.payload, max_len as nat),
    {
        match &self.payload {
            None => owned("(null)"),
            Some(p) => {
                let collapsed = Self::preview_base(p);
                if collapsed.as_str().as_bytes().len() > max_len {
                    let (head, _) = collapsed.as_str().split_at(max_len);
                    let mut r = owned(head);
                    push_str(&mut r, "…");
                    r
                } else {
                    collapsed
                }
            },
        }
    }

    /// The payload for the detail view: JSON documents pretty-printed, other
    /// UTF-8 text as it is, anything else as a size marker.
    pub fn value_pretty(&self) -> (r: String)
        ensures
            self.payload is None ==> r@ == "(null)"@,
            self.payload is Some && is_json_text(self.payload->0@) ==> r@ == json_pretty(
                self.payload->0@,
            ),
            self.payload is Some && !is_json_text(self.payload->0@) ==> r@ == plain_text(
                self.payload->0@,
            ),
    {
        match &self.payload {
            None => owned("(null)"),
            Some(p) => {
                match utf8_str(p.as_slice()) {
                    Some(s) => {
                        match try_pretty_json(p.as_slice()) {
                            Some(pretty) => pretty,
                            None => owned(s),
                        }
                    },
                    None => text_or_size_of(p.as_slice(), " bytes>"),
                }
            },
        }
    }
}

/// Whether a payload is UTF-8 text holding a JSON document.
pub open spec fn is_json_text(b: Seq<u8>) -> bool {
    valid_utf8(b) && json_accepts(b)
}

/// A payload that is not JSON, as the detail view shows it: UTF-8 text as it
/// is, anything else as a size marker.
pub open spec fn plain_text(b: Seq<u8>) -> Seq<char> {
    if valid_utf8(b) {
        decode_utf8(b)
    } else {
        "<binary "@ + decimal(b.len()) + " bytes>"@
    }
}

/// Where reading a partition starts.
#[derive(Debug, Clone, Copy, PartialEq, Eq, Structural)]
pub enum StartPosition {
    Beginning,
    End,
    At(i64),
}

/// The start of a fetch: -1 reads from the earliest offset, -2 from the
/// latest, anything else from that offset.
pub fn start_position(start_offset: i64) -> (p: StartPosition)
    ensures
        p == (if start_offset == -1 {
            StartPosition::Beginning
        } else if start_offset == -2 {
            StartPosition::End
        } else {
            StartPosition::At(start_offset)
        }),
{
    if start_offset == -1 {
        StartPosition::Beginning
    } else if start_offset == -2 {
        StartPosition::End
    } else {
        StartPosition::At(start_offset)
    }
}

/// Whether the fetch loop polls again: fewer than `limit` messages so far and
/// the deadline not yet passed.
pub fn keep_polling(collected: usize, limit: usize, deadline_passed: bool) -> (b: bool)
    ensures
        b == (collected < limit && !deadline_passed),
{
    collected < limit && !deadline_passed
}

/// Whether a message at `msg_offset` is the last one before the high
/// watermark (a high watermark of 0 or less is not checked).
pub fn reached_high_watermark(msg_offset: i64, high_watermark: i64) -> (b: bool)
    ensures
        b == (high_watermark > 0 && msg_offset >= high_watermark - 1),
{
    high_watermark > 0 && msg_offset >= high_watermark - 1
}

/// The offset a timestamp lookup resolved to, when it is a real offset.
pub fn resolved_start(offset: Option<i64>) -> (r: Option<i64>)
    ensures
        r == (match offset {
            Some(o) => if o >= 0 {
                Some(o)
            } else {
                None
            },
            None => None,
        }),
{
    match offset {
        Some(o) => if o >= 0 {
            Some(o)
        } else {
            None
        },
        None => None,
    }
}

} // verus!
