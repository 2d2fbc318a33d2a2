//! Which block a query is made against, as the command line names it.

use vstd::prelude::*;
use vstd::string::*;
use crate::text::str_eq;

verus! {

/// A block, by tag, hash or number.
#[derive(Clone, Debug, PartialEq, Eq)]
pub enum BlockRef {
    /// The block that is being built.
    Pending,
    /// The last block that was closed.
    Latest,
    /// The block with this hash, kept as the text that was given.
    Hash(String),
    /// The block with this number.
    Number(u64),
}

pub enum BlockRefView {
    Pending,
    Latest,
    Hash(Seq<char>),
    Number(u64),
}

impl View for BlockRef {
    type V = BlockRefView;

    open spec fn view(&self) -> BlockRefView {
        match self {
            BlockRef::Pending => BlockRefView::Pending,
            BlockRef::Latest => BlockRefView::Latest,
            BlockRef::Hash(h) => BlockRefView::Hash(h@),
            BlockRef::Number(n) => BlockRefView::Number(*n),
        }
    }
}

/// Whether a character is a decimal digit.
pub open spec fn is_digit(c: char) -> bool {
    '0' <= c <= '9'
}

/// The value of a digit; zero for any other character.
pub open spec fn digit_value(c: char) -> nat {
    if is_digit(c) {
        (c as u32 - '0' as u32) as nat
    } else {
        0
    }
}

/// Whether a text is made of decimal digits only.
pub open spec fn all_digits(s: Seq<char>) -> bool {
    forall|i: int| 0 <= i < s.len() ==> is_digit(#[trigger] s[i])
}

/// The number that decimal digits write.
pub open spec fn decimal_value(s: Seq<char>) -> nat
    decreases s.len(),
{
    if s.len() == 0 {
        0
    } else {
        decimal_value(s.drop_last()) * 10 + digit_value(s.last())
    }
}

/// Whether a text starts with `0x`.
pub open spec fn has_hex_prefix(s: Seq<char>) -> bool {
    s.len() >= 2 && s[0] == '0' && s[1] == 'x'
}

/// The block that a text names: `pending` and `latest` are the tags, a text
/// that starts with `0x` is a hash, a text of decimal digits whose number
/// fits 64 bits is that number, and any other text names no block.
pub open spec fn block_ref_of(text: Seq<char>) -> Option<BlockRefView> {
    if text == "pending"@ {
        Some(BlockRefView::Pending)
    } else if text == "latest"@ {
        Some(BlockRefView::Latest)
    } else if has_hex_prefix(text) {
        Some(BlockRefView::Hash(text))
    } else if text.len() > 0 && all_digits(text) && decimal_value(text) <= u64::MAX {
        Some(BlockRefView::Number(decimal_value(text) as u64))
    } else {
        None
    }
}

/// A longer text of digits writes no smaller number.
pub proof fn lemma_decimal_grows(s: Seq<char>, k: int)
    requires
        0 <= k <= s.len(),
    ensures
        decimal_value(s.take(k)) <= decimal_value(s),
    decreases s.len() - k,
{
    if k == s.len() {
        assert(s.take(k) =~= s);
    } else {
        assert(s.take(k + 1).drop_last() =~= s.take(k));
        lemma_decimal_grows(s, k + 1);
    }
}

/// Reads the number that a text of decimal digits writes; `None` where a
/// character is no digit, the text is empty or the number does not fit.
pub fn parse_decimal(text: &str) -> (r: Option<u64>)
    ensures
        r is Some <==> text@.len() > 0 && all_digits(text@) && decimal_value(text@) <= u64::MAX,
        r matches Some(v) ==> v == decimal_value(text@),
{
    let n = text.unicode_len();
    if n == 0 {
        return None;
    }
    let mut value: u64 = 0;
    let mut i: usize = 0;
    assert(text@.take(0) =~= Seq::<char>::empty());
    while i < n
        invariant
            i <= n,
            n == text@.len(),
            all_digits(text@.take(i as int)),
            value == decimal_value(text@.take(i as int)),
        decreases n - i,
    {
        let c = text.get_char(i);
        proof {
            assert(text@.take(i + 1).drop_last() =~= text@.take(i as int));
            assert(text@.take(i + 1).last() == c);
            lemma_decimal_grows(text@, i + 1);
        }
        if c < '0' || c > '9' {
            assert(!is_digit(text@[i as int]));
            return None;
        }
        let digit: u64 = (c as u32 - '0' as u32) as u64;
        let next = match value.checked_mul(10) {
            Some(tens) => tens.checked_add(digit),
            None => None,
        };
        match next {
            Some(v) => {
                value = v;
            },
            None => {
                return None;
            },
        }
        assert forall|j: int| 0 <= j < i + 1 implies is_digit(#[trigger] text@.take(i + 1)[j]) by {
            if j < i {
                assert(text@.take(i as int)[j] == text@.take(i + 1)[j]);
            }
        }
        i += 1;
    }
    proof {
        assert(text@.take(n as int) =~= text@);
    }
    Some(value)
}

/// Reads which block a text names.
pub fn parse_block_ref(text: &str) -> (r: Option<BlockRef>)
    ensures
        match r {
            Some(b) => block_ref_of(text@) == Some(b@),
            None => block_ref_of(text@) is None,
        },
{
    if str_eq(text, "pending") {
        return Some(BlockRef::Pending);
    }
    if str_eq(text, "latest") {
        return Some(BlockRef::Latest);
    }
    let n = text.unicode_len();
    if n >= 2 && text.get_char(0) == '0' && text.get_char(1) == 'x' {
        return Some(BlockRef::Hash(text.to_owned()));
    }
    match parse_decimal(text) {
        Some(v) => Some(BlockRef::Number(v)),
        None => None,
    }
}

} // verus!
