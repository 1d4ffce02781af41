//! Call identifiers and the two nondeterministic sources the bridge uses:
//! freshly minted identifiers and the wall clock.

use vstd::prelude::*;

use uuid::Uuid;

use crate::text::push_char;

verus! {

/// The lowercase hex digit for a value below sixteen.
pub open spec fn hex_digit(d: int) -> char {
    if d == 0 {
        '0'
    } else if d == 1 {
        '1'
    } else if d == 2 {
        '2'
    } else if d == 3 {
        '3'
    } else if d == 4 {
        '4'
    } else if d == 5 {
        '5'
    } else if d == 6 {
        '6'
    } else if d == 7 {
        '7'
    } else if d == 8 {
        '8'
    } else if d == 9 {
        '9'
    } else if d == 10 {
        'a'
    } else if d == 11 {
        'b'
    } else if d == 12 {
        'c'
    } else if d == 13 {
        'd'
    } else if d == 14 {
        'e'
    } else {
        'f'
    }
}

/// Nibble `j` of `b`, counting from the most significant (`j` in 0..32).
pub open spec fn nibble_of(b: u128, j: int) -> u128 {
    (b >> (((31 - j) * 4) as u128)) & 0xf
}

/// Nibbles `from..to` of `b` as hex digits.
pub open spec fn hex_group(b: u128, from: int, to: int) -> Seq<char> {
    Seq::new((to - from) as nat, |k: int| hex_digit(nibble_of(b, from + k) as int))
}

/// The canonical hyphenated lowercase-hex form of a 128-bit identifier:
/// five hex groups of 8, 4, 4, 4 and 12 digits.
pub open spec fn uuid_chars(b: u128) -> Seq<char> {
    hex_group(b, 0, 8) + seq!['-'] + hex_group(b, 8, 12) + seq!['-'] + hex_group(b, 12, 16)
        + seq!['-'] + hex_group(b, 16, 20) + seq!['-'] + hex_group(b, 20, 32)
}

/// A 128-bit call identifier.  Every envelope that enters the dispatch queue
/// carries one; reply routing is keyed by it.
#[derive(Clone, Copy, Debug, PartialEq, Eq, Hash, Structural)]
pub struct CallId {
    pub bits: u128,
}

impl CallId {
    /// The all-zero identifier, which a well-behaved peer never mints.
    pub fn nil() -> (r: CallId)
        ensures
            r.bits == 0,
    {
        CallId { bits: 0 }
    }
}

fn hex_digit_exec(d: u128) -> (c: char)
    requires
        d < 16,
    ensures
        c == hex_digit(d as int),
{
    if d == 0 {
        '0'
    } else if d == 1 {
        '1'
    } else if d == 2 {
        '2'
    } else if d == 3 {
        '3'
    } else if d == 4 {
        '4'
    } else if d == 5 {
        '5'
    } else if d == 6 {
        '6'
    } else if d == 7 {
        '7'
    } else if d == 8 {
        '8'
    } else if d == 9 {
        '9'
    } else if d == 10 {
        'a'
    } else if d == 11 {
        'b'
    } else if d == 12 {
        'c'
    } else if d == 13 {
        'd'
    } else if d == 14 {
        'e'
    } else {
        'f'
    }
}

/// Appends nibbles `from..to` of `b` as hex digits.
fn push_hex_group(s: &mut String, b: u128, from: usize, to: usize)
    requires
        from <= to <= 32,
    ensures
        final(s)@ == old(s)@ + hex_group(b, from as int, to as int),
{
    let mut k: usize = from;
    proof {
        assert(old(s)@ + hex_group(b, from as int, from as int) =~= old(s)@);
    }
    while k < to
        invariant
            from <= k <= to <= 32,
            s@ == old(s)@ + hex_group(b, from as int, k as int),
        decreases to - k,
    {
        let sh: u128 = (((31 - k) * 4) as u128);
        let nib: u128 = (b >> sh) & 0xf;
        proof {
            assert((b >> sh) & 0xf < 16) by (bit_vector);
            assert(nib == nibble_of(b, k as int));
        }
        push_char(s, hex_digit_exec(nib));
        proof {
            assert(s@ =~= old(s)@ + hex_group(b, from as int, k + 1));
        }
        k += 1;
    }
}

impl CallId {
    /// The canonical hyphenated lowercase-hex rendering of this identifier.
    pub fn to_uuid_string(&self) -> (r: String)
        ensures
            r@ == uuid_chars(self.bits),
    {
        let b = self.bits;
        let mut s = String::new();
        push_hex_group(&mut s, b, 0, 8);
        push_char(&mut s, '-');
        push_hex_group(&mut s, b, 8, 12);
        push_char(&mut s, '-');
        push_hex_group(&mut s, b, 12, 16);
        push_char(&mut s, '-');
        push_hex_group(&mut s, b, 16, 20);
        push_char(&mut s, '-');
        push_hex_group(&mut s, b, 20, 32);
        proof {
            assert(s@ =~= uuid_chars(b));
        }
        s
    }
}

/// Relies on `uuid::Uuid::new_v4` for a random 128-bit identifier.  The
/// result is random, so nothing is promised of it; callers that need the
/// identifier to be unused test the reply table themselves.
#[verifier::external_body]
pub fn mint_call_id() -> CallId {
    CallId { bits: Uuid::new_v4().as_u128() }
}

/// Relies on `std::time::SystemTime` for the wall clock: milliseconds since
/// the Unix epoch, or 0 when the clock reads earlier than the epoch.  The
/// result depends on the machine's clock, so nothing is promised of it.
#[verifier::external_body]
fn system_clock_ms() -> u64 {
    std::time::SystemTime::now()
        .duration_since(std::time::UNIX_EPOCH)
        .map(|d| d.as_millis() as u64)
        .unwrap_or(0)
}

/// The wall clock in milliseconds since the Unix epoch, as stamped on the
/// auxiliary-lane commands.
pub fn current_timestamp_ms() -> u64 {
    system_clock_ms()
}

} // verus!
