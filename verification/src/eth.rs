//! Validation of external-chain destination addresses.
//!
//! A destination is accepted when it is exactly forty hexadecimal digits,
//! optionally preceded by a single `0x` prefix.

use vstd::prelude::*;
use crate::error::ContractError;

verus! {

/// The number of hexadecimal digits in an external-chain address.
pub const ADDRESS_HEX_LEN: usize = 40;

/// Whether `c` is a hexadecimal digit (either case).
pub open spec fn is_hex_digit(c: char) -> bool {
    (48 <= c as u32 && c as u32 <= 57)  // '0' ..= '9'
    || (97 <= c as u32 && c as u32 <= 102)  // 'a' ..= 'f'
    || (65 <= c as u32 && c as u32 <= 70)  // 'A' ..= 'F'
}

/// The address with a single leading `0x`, if present, stripped.
pub open spec fn addr_body(s: Seq<char>) -> Seq<char> {
    if s.len() >= 2 && s[0] == '0' && s[1] == 'x' {
        s.skip(2)
    } else {
        s
    }
}

/// The external chain's address grammar: forty hexadecimal digits after the
/// optional `0x` prefix.
pub open spec fn valid_eth_address(s: Seq<char>) -> bool {
    addr_body(s).len() == ADDRESS_HEX_LEN
        && (forall|i: int| 0 <= i < addr_body(s).len() ==> is_hex_digit(#[trigger] addr_body(s)[i]))
}

/// Whether `c` is a hexadecimal digit (either case).
pub fn is_hex_digit_char(c: char) -> (r: bool)
    ensures
        r == is_hex_digit(c),
{
    let u = c as u32;
    (48 <= u && u <= 57) || (97 <= u && u <= 102) || (65 <= u && u <= 70)
}

/// Checks a destination address against the external chain's address grammar
/// and reports `InvalidAddress` for anything malformed.
pub fn validate_address(address: &str) -> (r: Result<(), ContractError>)
    ensures
        r is Ok <==> valid_eth_address(address@),
        r is Err ==> r == Err::<(), ContractError>(ContractError::InvalidAddress),
{
    let n = address.unicode_len();
    let start: usize = if n >= 2 && address.get_char(0) == '0' && address.get_char(1) == 'x' {
        2
    } else {
        0
    };
    assert(addr_body(address@) =~= address@.skip(start as int));
    if n - start != ADDRESS_HEX_LEN {
        return Err(ContractError::InvalidAddress);
    }
    let mut i: usize = start;
    while i < n
        invariant
            start <= i <= n,
            n == address@.len(),
            n - start == ADDRESS_HEX_LEN,
            addr_body(address@) =~= address@.skip(start as int),
            forall|j: int| start <= j < i ==> is_hex_digit(#[trigger] address@[j]),
        decreases n - i,
    {
        if !is_hex_digit_char(address.get_char(i)) {
            assert(addr_body(address@)[i - start] == address@[i as int]);
            return Err(ContractError::InvalidAddress);
        }
        i = i + 1;
    }
    assert forall|k: int| 0 <= k < addr_body(address@).len() implies is_hex_digit(
        #[trigger] addr_body(address@)[k],
    ) by {
        assert(addr_body(address@)[k] == address@[k + start]);
    }
    Ok(())
}

} // verus!
