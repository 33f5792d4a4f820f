//! Reading amounts that the configuration gives as decimal text.

use vstd::prelude::*;
use vstd::utf8::{
    encode_utf8, encode_utf8_valid_utf8, is_ascii_chars, is_ascii_chars_encode_utf8, is_char_boundary,
    is_char_boundary_iff_not_is_continuation_byte, is_continuation_byte,
};

use crate::u256::U256;

verus! {

/// The largest number of decimals that a unit can have.
pub const MAX_UNIT_DECIMALS: u8 = 77;

/// The number of decimals of one ether.
pub const ETHER_DECIMALS: u8 = 18;

/// What `alloy::primitives::utils::parse_ether` makes of `amount`: wei, or the
/// texts of its error and of all that this is due to.
pub uninterp spec fn parsed_ether(amount: Seq<char>) -> Result<nat, Seq<Seq<char>>>;

/// What `alloy::primitives::utils::parse_units` makes of `amount` in a unit of
/// `decimals` decimals: an amount of that unit's smallest part, converted to an
/// unsigned integer, or the texts of its error and of all that this is due to.
pub uninterp spec fn parsed_units(amount: Seq<char>, decimals: u8) -> Result<nat, Seq<Seq<char>>>;

/// What a reading gave: a number, or a chain of causes.
pub open spec fn amount_read(r: Result<U256, Vec<String>>) -> Result<nat, Seq<Seq<char>>> {
    match r {
        Ok(amount) => Ok(amount@),
        Err(causes) => Err(causes.deep_view()),
    }
}

/// `d` is the position of the first `.` among the bytes of an amount.
pub open spec fn is_first_dot(bytes: Seq<u8>, d: int) -> bool {
    &&& 0 <= d < bytes.len()
    &&& bytes[d] == 0x2e
    &&& forall|i: int| 0 <= i < d ==> bytes[i] != 0x2e
}

/// Decimals beyond the unit's are cut off an amount before it is read. The cut
/// is made in bytes; this says that it does not fall inside a character. An
/// amount of ASCII characters is always readable.
pub open spec fn readable(amount: Seq<char>, decimals: u8) -> bool {
    let bytes = encode_utf8(amount);
    decimals > MAX_UNIT_DECIMALS || forall|d: int| #[trigger]
        is_first_dot(bytes, d) && d + 1 + decimals < bytes.len() ==> is_char_boundary(
            bytes,
            d + 1 + decimals,
        )
}

/// An amount of ASCII characters can always be read.
pub proof fn law_ascii_amount_is_readable(amount: Seq<char>, decimals: u8)
    requires
        is_ascii_chars(amount),
    ensures
        readable(amount, decimals),
{
    let bytes = encode_utf8(amount);
    is_ascii_chars_encode_utf8(amount);
    encode_utf8_valid_utf8(amount);
    assert forall|d: int| #[trigger]
        is_first_dot(bytes, d) && d + 1 + decimals < bytes.len() implies is_char_boundary(
        bytes,
        d + 1 + decimals,
    ) by {
        let cut = d + 1 + decimals;
        assert(bytes[cut] == amount[cut] as u8);
        assert(!is_continuation_byte(bytes[cut]));
        is_char_boundary_iff_not_is_continuation_byte(bytes, cut);
    }
}

/// Whether `amount` can be read in a unit of `decimals` decimals without a cut
/// inside a character; see [`readable`].
pub fn is_readable(amount: &str, decimals: u8) -> (r: bool)
    ensures
        r == readable(amount@, decimals),
{
    if decimals > MAX_UNIT_DECIMALS {
        return true;
    }
    let bytes = amount.as_bytes();
    let len: usize = bytes.len();
    let mut i: usize = 0;
    while i < len
        invariant
            i <= len,
            len == bytes@.len(),
            bytes@ == encode_utf8(amount@),
            decimals <= MAX_UNIT_DECIMALS,
            forall|k: int| 0 <= k < i ==> bytes@[k] != 0x2e,
        decreases len - i,
    {
        if bytes[i] == 0x2e {
            assert(is_first_dot(bytes@, i as int));
            assert forall|d: int| #[trigger] is_first_dot(bytes@, d) implies d == i by {
                assert(!(d < i) && !(i < d));
            }
            let rest: usize = len - i - 1;
            if (decimals as usize) < rest {
                return amount.is_char_boundary(i + 1 + decimals as usize);
            }
            return true;
        }
        i = i + 1;
    }
    true
}

/// Reads an amount of ether, in wei.
///
/// Trusted: calls `alloy::primitives::utils::parse_ether`, and turns each error
/// in the chain of its error, as `anyhow::Error::chain` gives it, into text by
/// its `Display`. Both number and texts are functions of `amount` alone and are
/// named [`parsed_ether`]. It slices the text in bytes and would
/// panic on a cut inside a character, so `requires` leaves that out.
#[verifier::external_body]
pub(crate) fn parse_ether(amount: &str) -> (r: Result<U256, Vec<String>>)
    requires
        readable(amount@, ETHER_DECIMALS),
    ensures
        amount_read(r) == parsed_ether(amount@),
{
    match alloy::primitives::utils::parse_ether(amount) {
        Ok(wei) => {
            let [w0, w1, w2, w3] = wei.into_limbs();
            Ok(U256 { w0, w1, w2, w3 })
        },
        Err(error) => {
            let error = anyhow::Error::new(error);
            Err(error.chain().map(|cause| cause.to_string()).collect())
        },
    }
}

/// Reads an amount in a unit of `decimals` decimals.
///
/// Trusted: calls `alloy::primitives::utils::parse_units`, converts what it read
/// to an unsigned integer, as that type's `From` does, and turns each error in
/// the chain of its error, as `anyhow::Error::chain` gives it, into text by its
/// `Display`. Both number and texts are functions of the two arguments alone and
/// are named [`parsed_units`]. It slices the text in bytes
/// and would panic on a cut inside a character, so `requires` leaves that out.
#[verifier::external_body]
pub(crate) fn parse_units(amount: &str, decimals: u8) -> (r: Result<U256, Vec<String>>)
    requires
        readable(amount@, decimals),
    ensures
        amount_read(r) == parsed_units(amount@, decimals),
{
    match alloy::primitives::utils::parse_units(amount, decimals) {
        Ok(read) => {
            let units: alloy::primitives::U256 = read.into();
            let [w0, w1, w2, w3] = units.into_limbs();
            Ok(U256 { w0, w1, w2, w3 })
        },
        Err(error) => {
            let error = anyhow::Error::new(error);
            Err(error.chain().map(|cause| cause.to_string()).collect())
        },
    }
}

} // verus!
