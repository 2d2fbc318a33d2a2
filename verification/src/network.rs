//! The network a chain id stands for.
//!
//! Records of the accounts file are kept per network, and the name of a
//! network is the text that its chain id spells.

use vstd::prelude::*;
use vstd::string::*;
use crate::felt::Felt;

verus! {

/// What `starknet::core::utils::parse_cairo_short_string` makes of an
/// element: the text it spells, or `None` where it spells none. For an
/// element whose first byte is zero this is `spelled`.
pub uninterp spec fn cairo_short_string(felt: Seq<u8>) -> Option<Seq<char>>;

/// The number of zero bytes at the start.
pub open spec fn leading_zeros(bytes: Seq<u8>) -> int
    decreases bytes.len(),
{
    if bytes.len() == 0 || bytes[0] != 0 {
        0
    } else {
        1 + leading_zeros(bytes.skip(1))
    }
}

/// The text that bytes spell: the bytes after the leading zeros, each as the
/// character of that code; none where a zero byte follows a byte that is not
/// zero. All zeros spell the empty text.
pub open spec fn spelled(bytes: Seq<u8>) -> Option<Seq<char>> {
    let tail = bytes.skip(leading_zeros(bytes));
    if tail.contains(0u8) {
        None
    } else {
        Some(tail.map_values(|b: u8| b as char))
    }
}

/// The error of `starknet::core::utils::parse_cairo_short_string`, carried
/// through as it is.
#[verifier::external_type_specification]
#[verifier::external_body]
pub struct ExParseCairoShortStringError(starknet::core::utils::ParseCairoShortStringError);

#[derive(Clone, Copy, Debug, PartialEq, Eq, Structural)]
pub enum NetworkError {
    /// The chain id does not spell a name.
    UnreadableChainId,
}

/// Calls `starknet::core::utils::parse_cairo_short_string` on the element
/// with these bytes. The result is the named text of the bytes, and an error
/// exactly where there is none. Where the first byte is zero the bytes are the
/// element's own, and the text is what they spell: leading zeros are passed
/// over, every other byte becomes a character, and a zero byte after the
/// first byte that is not zero is an error.
#[verifier::external_body]
fn parse_short_string(felt: &Felt) -> (r: Result<
    String,
    starknet::core::utils::ParseCairoShortStringError,
>)
    ensures
        match r {
            Ok(s) => cairo_short_string(felt@) == Some(s@),
            Err(_) => cairo_short_string(felt@) is None,
        },
        felt@[0] == 0 ==> (match r {
            Ok(s) => spelled(felt@) == Some(s@),
            Err(_) => spelled(felt@) is None,
        }),
{
    let element = starknet::core::types::Felt::from_bytes_be(&felt.bytes);
    starknet::core::utils::parse_cairo_short_string(&element)
}

/// The name of the network with this chain id: the text that the chain id
/// spells. Every chain id that is a text of up to 31 characters has a zero
/// first byte, and its name is then exactly what its bytes spell.
pub fn network_name(chain_id: &Felt) -> (r: Result<String, NetworkError>)
    ensures
        match r {
            Ok(s) => cairo_short_string(chain_id@) == Some(s@),
            Err(e) => e == NetworkError::UnreadableChainId && cairo_short_string(chain_id@) is None,
        },
        chain_id@[0] == 0 ==> (match r {
            Ok(s) => spelled(chain_id@) == Some(s@),
            Err(_) => spelled(chain_id@) is None,
        }),
{
    match parse_short_string(chain_id) {
        Ok(s) => Ok(s),
        Err(_) => Err(NetworkError::UnreadableChainId),
    }
}

} // verus!
