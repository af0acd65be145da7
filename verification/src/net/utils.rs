//! IPv4 socket addresses: their parts and their 32-bit form.

use crate::error::{InvalidInput, IoError};
use crate::utils::text::{spec_split, split};
use vstd::prelude::*;
use vstd::string::*;

verus! {

/// An IPv4 address with a port.
#[derive(Clone, Copy, Debug, PartialEq, Eq)]
pub struct SocketAddrV4 {
    /// The four parts of the address, in the order in which they are written.
    pub octets: [u8; 4],
    /// The port.
    pub port: u16,
}

/// The 32-bit number whose bytes, most significant first, are `octets`.
pub open spec fn spec_ip_bits(octets: Seq<u8>) -> u32
    recommends
        octets.len() == 4,
{
    (octets[0] as u32) << 24 | (octets[1] as u32) << 16 | (octets[2] as u32) << 8 | (
    octets[3] as u32)
}

/// The four bytes of `bits`, most significant first.
pub open spec fn spec_ip_octets(bits: u32) -> Seq<u8> {
    seq![(bits >> 24) as u8, (bits >> 16) as u8, (bits >> 8) as u8, bits as u8]
}

impl SocketAddrV4 {
    /// The address made of `octets` and `port`.
    pub fn new(octets: [u8; 4], port: u16) -> (address: Self)
        ensures
            address.octets == octets,
            address.port == port,
    {
        SocketAddrV4 { octets, port }
    }

    /// The address as one 32-bit number, its first part in the most
    /// significant byte.
    pub fn ip_bits(&self) -> (bits: u32)
        ensures
            bits == spec_ip_bits(self.octets@),
    {
        (self.octets[0] as u32) << 24 | (self.octets[1] as u32) << 16 | (self.octets[2] as u32)
            << 8 | (self.octets[3] as u32)
    }

    /// The address whose 32-bit form is `bits`, with the port `port`.
    pub fn from_ip_bits(bits: u32, port: u16) -> (address: Self)
        ensures
            address.octets@ == spec_ip_octets(bits),
            address.port == port,
    {
        let octets: [u8; 4] = [
            #[verifier::truncate] ((bits >> 24) as u8),
            #[verifier::truncate] ((bits >> 16) as u8),
            #[verifier::truncate] ((bits >> 8) as u8),
            #[verifier::truncate] (bits as u8),
        ];
        assert(octets@ =~= spec_ip_octets(bits));
        SocketAddrV4 { octets, port }
    }
}

/// The address that a kernel socket address stands for: `ip_bits` is its
/// 32-bit address and `port` its port, both already in host byte order.
pub fn sockaddr_to_socketaddr(ip_bits: u32, port: u16) -> (address: SocketAddrV4)
    ensures
        address.octets@ == spec_ip_octets(ip_bits),
        address.port == port,
{
    SocketAddrV4::from_ip_bits(ip_bits, port)
}

/// Taking an address apart and putting it together again gives the same
/// address, and the same holds the other way round.
pub proof fn lemma_ip_bits_round_trip(octets: Seq<u8>, bits: u32)
    requires
        octets.len() == 4,
    ensures
        spec_ip_octets(spec_ip_bits(octets)) == octets,
        spec_ip_bits(spec_ip_octets(bits)) == bits,
{
    let a = octets[0];
    let b = octets[1];
    let c = octets[2];
    let d = octets[3];
    let packed = (a as u32) << 24 | (b as u32) << 16 | (c as u32) << 8 | (d as u32);
    assert((packed >> 24) as u8 == a && (packed >> 16) as u8 == b && (packed >> 8) as u8 == c
        && packed as u8 == d) by (bit_vector)
        requires
            packed == (a as u32) << 24 | (b as u32) << 16 | (c as u32) << 8 | (d as u32),
    ;
    assert(spec_ip_octets(spec_ip_bits(octets)) =~= octets);
    let w = (bits >> 24) as u8;
    let x = (bits >> 16) as u8;
    let y = (bits >> 8) as u8;
    let z = bits as u8;
    assert((w as u32) << 24 | (x as u32) << 16 | (y as u32) << 8 | (z as u32) == bits)
        by (bit_vector)
        requires
            w == (bits >> 24) as u8,
            x == (bits >> 16) as u8,
            y == (bits >> 8) as u8,
            z == bits as u8,
    ;
}

/// Whether `byte` is one of the characters `0` to `9`.
pub open spec fn spec_is_digit(byte: u8) -> bool {
    0x30 <= byte <= 0x39
}

/// The number that a string of decimal digits denotes.
pub open spec fn spec_decimal(digits: Seq<u8>) -> nat
    decreases digits.len(),
{
    if digits.len() == 0 {
        0
    } else {
        spec_decimal(digits.drop_last()) * 10 + (digits.last() - 0x30) as nat
    }
}

/// The digits of a number, once an optional leading `+` is taken off.
pub open spec fn spec_unsigned(text: Seq<u8>) -> Seq<u8> {
    if text.len() > 0 && text[0] == 0x2B {
        text.drop_first()
    } else {
        text
    }
}

/// The number that `text` denotes, if it is a number written as the
/// standard library reads unsigned integers: an optional `+`, then one or
/// more decimal digits and nothing else, with a value of at most `max`.
pub open spec fn spec_parse_number(text: Seq<u8>, max: nat) -> Option<nat> {
    let digits = spec_unsigned(text);
    if digits.len() > 0 && (forall|i: int| 0 <= i < digits.len() ==> spec_is_digit(digits[i]))
        && spec_decimal(digits) <= max {
        Some(spec_decimal(digits))
    } else {
        None
    }
}

/// The position of the last `byte` in `text`, if there is one.
pub open spec fn spec_rfind(text: Seq<u8>, byte: u8) -> Option<int>
    decreases text.len(),
{
    if text.len() == 0 {
        None
    } else if text.last() == byte {
        Some(text.len() - 1)
    } else {
        spec_rfind(text.drop_last(), byte)
    }
}

/// Mathematical form of a socket address: its four parts and its port.
pub struct SocketAddrSpec {
    pub octets: Seq<u8>,
    pub port: u16,
}

/// What parsing `text` as `a.b.c.d:port` comes to. The text is cut at its
/// last colon; the port is checked first, then the number of parts of the
/// host, then the parts from left to right.
pub open spec fn spec_parse_sockaddr(text: Seq<u8>) -> Result<SocketAddrSpec, InvalidInput> {
    match spec_rfind(text, 0x3A) {
        None => Err(InvalidInput::InvalidAddress),
        Some(colon) => {
            let host = text.take(colon);
            let parts = spec_split(host, 0x2E);
            match spec_parse_number(text.skip(colon + 1), 65535) {
                None => Err(InvalidInput::InvalidPort),
                Some(port) => if parts.len() != 4 {
                    Err(InvalidInput::InvalidIpv4Address)
                } else if exists|k: int| 0 <= k < 4 && spec_parse_number(parts[k], 255) is None {
                    Err(InvalidInput::InvalidIpv4Octet)
                } else {
                    Ok(
                        SocketAddrSpec {
                            octets: Seq::new(4, |k: int| spec_parse_number(parts[k], 255)->0 as u8),
                            port: port as u16,
                        },
                    )
                },
            }
        },
    }
}

/// A longer string of digits denotes no smaller number than its beginning.
pub proof fn lemma_decimal_grows(digits: Seq<u8>, n: int)
    requires
        0 <= n <= digits.len(),
        forall|i: int| 0 <= i < digits.len() ==> spec_is_digit(digits[i]),
    ensures
        spec_decimal(digits.take(n)) <= spec_decimal(digits),
    decreases digits.len() - n,
{
    if n == digits.len() {
        assert(digits.take(n) =~= digits);
    } else {
        lemma_decimal_grows(digits, n + 1);
        assert(digits.take(n + 1).drop_last() =~= digits.take(n));
        assert(spec_is_digit(digits[n]));
    }
}

/// Reads the part of `bytes` from `from` to `to` as an unsigned decimal
/// number of at most `max`.
fn parse_number(bytes: &[u8], from: usize, to: usize, max: u32) -> (number: Option<u32>)
    requires
        from <= to <= bytes@.len(),
        max <= 65535,
    ensures
        number matches Some(value) ==> spec_parse_number(
            bytes@.subrange(from as int, to as int),
            max as nat,
        ) == Some(value as nat),
        number is None ==> spec_parse_number(
            bytes@.subrange(from as int, to as int),
            max as nat,
        ) is None,
{
    let ghost text = bytes@.subrange(from as int, to as int);
    let ghost digits = spec_unsigned(text);
    let mut start: usize = from;
    if from < to && bytes[from] == 0x2B {
        start = from + 1;
        assert(text[0] == bytes@[from as int]);
    }
    assert(digits =~= bytes@.subrange(start as int, to as int)) by {
        if from < to {
            assert(text[0] == bytes@[from as int]);
        }
    }
    if start == to {
        return None;
    }
    let mut value: u32 = 0;
    let mut i: usize = start;
    assert(digits.take(0) =~= Seq::<u8>::empty());
    while i < to
        invariant
            start <= i <= to <= bytes@.len(),
            max <= 65535,
            text == bytes@.subrange(from as int, to as int),
            digits == spec_unsigned(text),
            digits == bytes@.subrange(start as int, to as int),
            forall|j: int| 0 <= j < i - start ==> spec_is_digit(digits[j]),
            value == spec_decimal(digits.take(i - start)),
            value <= max,
        decreases to - i,
    {
        let byte: u8 = bytes[i];
        assert(byte == digits[i - start]);
        if byte < 0x30 || byte > 0x39 {
            assert(!spec_is_digit(digits[i - start]));
            return None;
        }
        let next: u32 = value * 10 + (byte - 0x30) as u32;
        proof {
            let done = digits.take(i - start + 1);
            assert(done.drop_last() =~= digits.take(i - start));
            assert(done.last() == byte);
            assert(spec_decimal(done) == next);
        }
        if next > max {
            proof {
                if forall|j: int| 0 <= j < digits.len() ==> spec_is_digit(digits[j]) {
                    lemma_decimal_grows(digits, i - start + 1);
                    assert(spec_decimal(digits) > max);
                }
                assert(spec_parse_number(text, max as nat) is None);
            }
            return None;
        }
        value = next;
        i += 1;
    }
    assert(digits.take(to - start) =~= digits);
    Some(value)
}

/// Finds the last `byte` in `bytes`.
fn rfind(bytes: &[u8], byte: u8) -> (found: Option<usize>)
    ensures
        found matches Some(at) ==> at < bytes@.len() && spec_rfind(bytes@, byte) == Some(at as int),
        found is None ==> spec_rfind(bytes@, byte) is None,
{
    let mut i: usize = bytes.len();
    assert(bytes@.take(i as int) =~= bytes@);
    while i > 0
        invariant
            i <= bytes@.len(),
            spec_rfind(bytes@, byte) == spec_rfind(bytes@.take(i as int), byte),
        decreases i,
    {
        assert(bytes@.take(i as int).last() == bytes@[i - 1]);
        if bytes[i - 1] == byte {
            return Some(i - 1);
        }
        assert(bytes@.take(i as int).drop_last() =~= bytes@.take(i - 1));
        i -= 1;
    }
    None
}

/// Parses a socket address written as `a.b.c.d:port`.
///
/// The text is cut at its last colon. What follows must be a port between 0
/// and 65535, what precedes four numbers between 0 and 255 separated by
/// dots; the numbers are decimal and may carry a leading `+`. A text
/// without colon is an invalid address; then the port is checked, then the
/// number of parts, then each part.
pub fn parse_sockaddr(address: &str) -> (parsed: Result<SocketAddrV4, IoError>)
    ensures
        match spec_parse_sockaddr(address.spec_bytes()) {
            Ok(spec) => parsed is Ok && parsed->Ok_0.octets@ == spec.octets && parsed->Ok_0.port
                == spec.port,
            Err(reason) => parsed == Err::<SocketAddrV4, IoError>(IoError::InvalidInput(reason)),
        },
{
    let bytes = address.as_bytes();
    let ghost text = bytes@;
    let colon: usize = match rfind(bytes, 0x3A) {
        Some(at) => at,
        None => {
            return Err(IoError::InvalidInput(InvalidInput::InvalidAddress));
        },
    };
    assert(spec_rfind(text, 0x3A) == Some(colon as int));
    assert(colon < bytes@.len());
    let ghost host = text.take(colon as int);
    let ghost wanted = spec_split(host, 0x2E);
    assert(text.skip(colon + 1) =~= text.subrange(colon + 1, text.len() as int));
    let len: usize = bytes.len();
    let port: u32 = match parse_number(bytes, colon + 1, len, 65535) {
        Some(port) => port,
        None => {
            return Err(IoError::InvalidInput(InvalidInput::InvalidPort));
        },
    };
    let cuts: Vec<(usize, usize)> = split(bytes, colon, 0x2E);
    assert(wanted.len() == cuts@.len());
    if cuts.len() != 4 {
        return Err(IoError::InvalidInput(InvalidInput::InvalidIpv4Address));
    }
    assert(wanted =~= Seq::new(4, |n: int| host.subrange(cuts@[n].0 as int, cuts@[n].1 as int))) by {
        if cuts@.len() == 4 {
            assert forall|n: int| 0 <= n < 4 implies wanted[n] == host.subrange(
                cuts@[n].0 as int,
                cuts@[n].1 as int,
            ) by {
                assert(text.subrange(cuts@[n].0 as int, cuts@[n].1 as int) =~= host.subrange(
                    cuts@[n].0 as int,
                    cuts@[n].1 as int,
                ));
            }
        }
    }

    let mut octets: [u8; 4] = [0, 0, 0, 0];
    let mut k: usize = 0;
    while k < 4
        invariant
            k <= 4,
            cuts@.len() == 4,
            text == address.spec_bytes(),
            spec_rfind(text, 0x3A) == Some(colon as int),
            spec_parse_number(text.skip(colon + 1), 65535) == Some(port as nat),
            text == bytes@,
            colon <= bytes@.len(),
            host == text.take(colon as int),
            wanted == spec_split(host, 0x2E),
            wanted == Seq::new(4, |n: int| host.subrange(cuts@[n].0 as int, cuts@[n].1 as int)),
            forall|n: int| 0 <= n < 4 ==> (#[trigger] cuts@[n]).0 <= cuts@[n].1 <= colon,
            forall|n: int|
                0 <= n < k ==> spec_parse_number(wanted[n], 255) == Some(
                    (#[trigger] octets@[n]) as nat,
                ),
        decreases 4 - k,
    {
        let (from, to) = cuts[k];
        assert(cuts@[k as int].0 <= cuts@[k as int].1 <= colon);
        assert(wanted[k as int] =~= bytes@.subrange(from as int, to as int));
        match parse_number(bytes, from, to, 255) {
            Some(value) => {
                octets[k] = value as u8;
            },
            None => {
                assert(0 <= k < 4 && spec_parse_number(wanted[k as int], 255) is None);
                assert(spec_parse_sockaddr(text) == Err::<SocketAddrSpec, InvalidInput>(
                    InvalidInput::InvalidIpv4Octet,
                ));
                return Err(IoError::InvalidInput(InvalidInput::InvalidIpv4Octet));
            },
        }
        k += 1;
    }
    proof {
        let spec = spec_parse_sockaddr(text);
        assert(!(exists|n: int| 0 <= n < 4 && spec_parse_number(wanted[n], 255) is None)) by {
            assert forall|n: int| 0 <= n < 4 implies spec_parse_number(wanted[n], 255) is Some by {
                assert(spec_parse_number(wanted[n], 255) == Some(octets@[n] as nat));
            }
        }
        assert(spec is Ok);
        assert(octets@ =~= spec->Ok_0.octets) by {
            assert forall|n: int| 0 <= n < 4 implies octets@[n] == spec->Ok_0.octets[n] by {
                assert(spec_parse_number(wanted[n], 255) == Some(octets@[n] as nat));
            }
        }
    }
    Ok(SocketAddrV4 { octets, port: port as u16 })
}

} // verus!
