use vstd::prelude::*;

use vstd::arithmetic::div_mod::lemma_basic_div;
use vstd::arithmetic::div_mod::lemma_div_non_zero;
use vstd::arithmetic::div_mod::lemma_div_pos_is_pos;

use crate::error::Error;

verus! {

/// Factor between the caller's 7-decimal fixed-point price and the circuit's
/// 2-decimal one.
pub const PRICE_RESCALE_DIVISOR: u128 = 100000;

/// `expected` rescaled from 7-decimal to 2-decimal fixed point: division by
/// 100000, truncating toward zero. For non-negative values this is plain
/// integer division; a negative value rescales to a non-positive one and can
/// therefore never equal a disclosed (unsigned) price unless both are zero.
pub open spec fn rescaled_price(expected: int) -> int {
    if expected >= 0 {
        expected / (PRICE_RESCALE_DIVISOR as int)
    } else {
        -((-expected) / (PRICE_RESCALE_DIVISOR as int))
    }
}

/// Whether the disclosed average price — the first public input — equals the
/// rescaled expected price exactly, with no tolerance.
pub open spec fn price_check(inputs: Seq<u32>, expected: int) -> Result<(), Error> {
    if inputs.len() == 0 {
        Err(Error::NoPublicInput)
    } else if inputs[0] as int == rescaled_price(expected) {
        Ok(())
    } else {
        Err(Error::PriceMismatch)
    }
}

/// Extracts the disclosed average price from the public inputs and compares
/// it to the caller's expected price after fixed-point rescaling.
pub fn check_price(public_inputs: &Vec<u32>, expected_price: i128) -> (result: Result<(), Error>)
    ensures
        result == price_check(public_inputs@, expected_price as int),
{
    if public_inputs.len() == 0 {
        return Err(Error::NoPublicInput);
    }

    let disclosed: u32 = public_inputs[0];

    if expected_price >= 0 {
        let scaled: u128 = (expected_price as u128) / PRICE_RESCALE_DIVISOR;
        if disclosed as u128 == scaled {
            Ok(())
        } else {
            Err(Error::PriceMismatch)
        }
    } else {
        // A negative expected price rescales to a non-positive value, so the
        // only disclosed price it can match is zero, and only when the
        // magnitude is small enough to truncate to zero.
        if disclosed == 0 && expected_price > -100000 {
            proof {
                lemma_basic_div(-(expected_price as int), PRICE_RESCALE_DIVISOR as int);
            }
            Ok(())
        } else {
            proof {
                let e: int = expected_price as int;
                let d: int = PRICE_RESCALE_DIVISOR as int;
                if e <= -100000 {
                    lemma_div_non_zero(-e, d);
                } else {
                    lemma_div_pos_is_pos(-e, d);
                }
            }
            Err(Error::PriceMismatch)
        }
    }
}

} // verus!
