//! The message list screen: the key column.

use vstd::prelude::*;
use vstd::string::*;
use vstd::utf8::*;
use crate::text::{owned, push_char, push_str};

verus! {

broadcast use vstd::utf8::encode_utf8_decode_utf8;

/// Width of the key column.
pub const KEY_WIDTH: usize = 20;

/// `c` followed by spaces up to `width` characters.
pub open spec fn padded(c: Seq<char>, width: nat) -> Seq<char> {
    if c.len() < width {
        c + Seq::new((width - c.len()) as nat, |i: int| ' ')
    } else {
        c
    }
}

/// The key column: keys longer than 20 bytes are cut to 19 bytes and end in
/// an ellipsis, shorter ones are padded to 20 characters.
pub open spec fn key_column(c: Seq<char>) -> Seq<char> {
    if encode_utf8(c).len() > KEY_WIDTH {
        decode_utf8(encode_utf8(c).take(KEY_WIDTH - 1)) + "…"@
    } else {
        padded(c, KEY_WIDTH as nat)
    }
}

/// Whether a long key can be cut at 19 bytes without splitting a character.
pub open spec fn key_column_allowed(c: Seq<char>) -> bool {
    encode_utf8(c).len() <= KEY_WIDTH || is_char_boundary(encode_utf8(c), KEY_WIDTH - 1)
}

/// Whether `key_cell` can lay out this key.
pub fn key_cell_fits(key: &str) -> (b: bool)
    ensures
        b == key_column_allowed(key@),
{
    key.as_bytes().len() <= KEY_WIDTH || key.is_char_boundary(KEY_WIDTH - 1)
}

/// The key as shown in its column.
pub fn key_cell(key: &str) -> (s: String)
    requires
        key_column_allowed(key@),
    ensures
        s@ == key_column(key@),
{
    if key.as_bytes().len() > KEY_WIDTH {
        let (head, _) = key.split_at(KEY_WIDTH - 1);
        let mut s = owned(head);
        push_str(&mut s, "…");
        s
    } else {
        let mut s = owned(key);
        let n = key.unicode_len();
        let mut i = n;
        while i < KEY_WIDTH
            invariant
                n == key@.len(),
                n <= i <= KEY_WIDTH || (n > KEY_WIDTH && i == n),
                s@ == key@ + Seq::new((i - n) as nat, |j: int| ' '),
            decreases KEY_WIDTH - i,
        {
            push_char(&mut s, ' ');
            i = i + 1;
            assert(s@ =~= key@ + Seq::new((i - n) as nat, |j: int| ' '));
        }
        assert(n < KEY_WIDTH ==> s@ =~= padded(key@, KEY_WIDTH as nat));
        assert(n >= KEY_WIDTH ==> s@ =~= key@);
        s
    }
}

} // verus!
