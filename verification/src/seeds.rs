//! Seed addresses.
//!
//! A seed is the address of a node to contact first: a host, a colon, and a
//! port. The host may be a name or an IP address; the port is a decimal
//! number that fits in 16 bits. A seed that is not of this form is a
//! configuration error, found before anything is started.

use vstd::prelude::*;
use vstd::utf8::*;
use crate::error::GossipError;
use crate::text::join;

verus! {

/// The byte of a colon.
pub const COLON: u8 = 58;

/// The byte of the digit zero.
pub const ZERO: u8 = 48;

/// The largest port.
pub const MAX_PORT: u32 = 65535;

/// The byte is a decimal digit.
pub open spec fn is_digit(byte: u8) -> bool {
    ZERO <= byte <= ZERO + 9
}

/// The number that a string of digits stands for.
pub open spec fn digits_value(digits: Seq<u8>) -> int
    decreases digits.len(),
{
    if digits.len() == 0 {
        0
    } else {
        digits_value(digits.drop_last()) * 10 + (digits.last() - ZERO)
    }
}

/// The bytes are a port: one digit or more, standing for a number that is
/// at most 65535.
pub open spec fn is_port(text: Seq<u8>) -> bool {
    &&& text.len() > 0
    &&& forall|k: int| 0 <= k < text.len() ==> is_digit(#[trigger] text[k])
    &&& digits_value(text) <= MAX_PORT
}

/// The bytes are a host and a port: something, a colon, and a port.
pub open spec fn is_host_and_port(text: Seq<u8>) -> bool {
    exists|colon: int|
        0 < colon < text.len() && #[trigger] text[colon] == COLON && is_port(
            text.subrange(colon + 1, text.len() as int),
        )
}

/// The text is a seed address.
pub open spec fn is_seed_address(seed: Seq<char>) -> bool {
    is_host_and_port(encode_utf8(seed))
}

/// What is said of a seed that is not an address.
pub open spec fn malformed_text(seed: Seq<char>) -> Seq<char> {
    "Malformed seed address: "@ + seed
}

/// `error` is the configuration error for the first of `seeds` that is not
/// an address.
pub open spec fn is_first_malformed(seeds: Seq<String>, error: GossipError) -> bool {
    exists|first: int|
        {
            &&& 0 <= first < seeds.len()
            &&& !is_seed_address(#[trigger] seeds[first]@)
            &&& forall|earlier: int| 0 <= earlier < first ==> is_seed_address(seeds[earlier]@)
            &&& error matches GossipError::ConfigError(detail) && detail@ == malformed_text(
                seeds[first]@,
            )
        }
}

/// The value of a string of digits is no less than the value of any of its
/// beginnings, and not negative.
pub proof fn lemma_digits_value_grows(digits: Seq<u8>, taken: int)
    requires
        0 <= taken <= digits.len(),
        forall|k: int| 0 <= k < digits.len() ==> is_digit(#[trigger] digits[k]),
    ensures
        0 <= digits_value(digits.take(taken)) <= digits_value(digits),
    decreases digits.len(),
{
    if digits.len() == 0 {
        assert(digits.take(taken) =~= digits);
    } else if taken == digits.len() {
        assert(digits.take(taken) =~= digits);
        lemma_digits_value_grows(digits.drop_last(), digits.len() - 1);
        assert(digits.drop_last().take(digits.len() - 1) =~= digits.drop_last());
        assert(is_digit(digits[digits.len() - 1]));
    } else {
        assert(digits.drop_last().take(taken) =~= digits.take(taken));
        lemma_digits_value_grows(digits.drop_last(), taken);
        assert(is_digit(digits[digits.len() - 1]));
    }
}

/// Whether the bytes from `from` on are a port.
pub fn is_port_from(text: &[u8], from: usize) -> (port: bool)
    requires
        from <= text@.len(),
    ensures
        port == is_port(text@.subrange(from as int, text@.len() as int)),
{
    let ghost rest = text@.subrange(from as int, text@.len() as int);
    if from == text.len() {
        return false;
    }
    let mut value: u32 = 0;
    let mut at: usize = from;
    assert(rest.take(0) =~= Seq::<u8>::empty());
    while at < text.len()
        invariant
            from <= at <= text.len(),
            rest == text@.subrange(from as int, text@.len() as int),
            forall|k: int| 0 <= k < at - from ==> is_digit(#[trigger] rest[k]),
            value == digits_value(rest.take(at - from)),
            value <= MAX_PORT,
        decreases text.len() - at,
    {
        let byte: u8 = text[at];
        assert(rest[at - from] == byte);
        if byte < ZERO || byte > ZERO + 9 {
            return false;
        }
        let digit: u32 = (byte - ZERO) as u32;
        let ghost longer = rest.take(at - from + 1);
        proof {
            assert(longer.drop_last() =~= rest.take(at - from));
            assert(longer.last() == byte);
        }
        if value * 10 + digit > MAX_PORT {
            proof {
                if is_port(rest) {
                    lemma_digits_value_grows(rest, at - from + 1);
                }
            }
            return false;
        }
        value = value * 10 + digit;
        at += 1;
    }
    assert(rest.take(at - from) =~= rest);
    true
}

/// Whether `seed` is a seed address.
pub fn is_seed(seed: &str) -> (well_formed: bool)
    ensures
        well_formed == is_seed_address(seed@),
{
    let text = seed.as_bytes();
    let mut at: usize = text.len();
    while at > 0
        invariant
            at <= text.len(),
            text@ == encode_utf8(seed@),
            forall|k: int| at <= k < text@.len() ==> text@[k] != COLON,
        decreases at,
    {
        at -= 1;
        if text[at] == COLON {
            let port = is_port_from(text, at + 1);
            proof {
                if at > 0 && port {
                    assert(text@[at as int] == COLON);
                } else {
                    assert forall|colon: int|
                        0 < colon < text@.len() && #[trigger] text@[colon] == COLON implies !is_port(
                        text@.subrange(colon + 1, text@.len() as int),
                    ) by {
                        if colon < at {
                            // this colon stands in what follows that one
                            let rest = text@.subrange(colon + 1, text@.len() as int);
                            assert(rest[at - colon - 1] == COLON);
                        }
                    }
                }
            }
            return at > 0 && port;
        }
    }
    false
}

/// Checks that every seed is an address.
pub fn check_seeds(seeds: &Vec<String>) -> (checked: Result<(), GossipError>)
    ensures
        checked is Ok <==> forall|i: int|
            0 <= i < seeds@.len() ==> is_seed_address(#[trigger] seeds@[i]@),
        checked matches Err(error) ==> is_first_malformed(seeds@, error),
{
    let mut next: usize = 0;
    while next < seeds.len()
        invariant
            next <= seeds.len(),
            forall|i: int| 0 <= i < next ==> is_seed_address(#[trigger] seeds@[i]@),
        decreases seeds.len() - next,
    {
        if !is_seed(seeds[next].as_str()) {
            let error = GossipError::ConfigError(
                join("Malformed seed address: ", seeds[next].as_str()),
            );
            assert(!is_seed_address(seeds@[next as int]@));
            return Err(error);
        }
        next += 1;
    }
    Ok(())
}

} // verus!
