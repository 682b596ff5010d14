//! Byte order of the eight-byte length that precedes every frame.

use vstd::prelude::*;

verus! {

/// The order in which the eight bytes of a length are laid out.
#[derive(Clone, Copy, Debug, PartialEq, Eq, Structural)]
pub enum ByteOrder {
    /// Least significant byte first.
    Little,
    /// Most significant byte first.
    Big,
}

/// Byte `k` of `n`, counted from the least significant one.
pub open spec fn octet(n: u64, k: u64) -> u8 {
    ((n >> (8 * k)) & 0xff) as u8
}

/// The eight bytes of `n`, least significant first.
pub open spec fn little_endian(n: u64) -> Seq<u8> {
    Seq::new(8, |i: int| octet(n, i as u64))
}

/// The eight bytes of `n`, most significant first.
pub open spec fn big_endian(n: u64) -> Seq<u8> {
    Seq::new(8, |i: int| octet(n, (7 - i) as u64))
}

/// The eight bytes that announce a payload of `n` bytes.
pub open spec fn length_prefix(order: ByteOrder, n: u64) -> Seq<u8> {
    match order {
        ByteOrder::Little => little_endian(n),
        ByteOrder::Big => big_endian(n),
    }
}

/// The number whose byte `k` is `bytes[k]`, for `k` below eight.
pub open spec fn assemble(bytes: Seq<u8>) -> u64
    recommends
        bytes.len() == 8,
{
    (bytes[0] as u64) | (bytes[1] as u64) << 8 | (bytes[2] as u64) << 16 | (bytes[3] as u64) << 24
        | (bytes[4] as u64) << 32 | (bytes[5] as u64) << 40 | (bytes[6] as u64) << 48 | (
    bytes[7] as u64) << 56
}

/// The length that the eight bytes `bytes` announce.
pub open spec fn prefix_value(order: ByteOrder, bytes: Seq<u8>) -> u64
    recommends
        bytes.len() == 8,
{
    match order {
        ByteOrder::Little => assemble(bytes),
        ByteOrder::Big => assemble(bytes.reverse()),
    }
}

/// Every length survives being written as a prefix and read back in the same order.
pub proof fn lemma_prefix_round_trip(order: ByteOrder, n: u64)
    ensures
        length_prefix(order, n).len() == 8,
        prefix_value(order, length_prefix(order, n)) == n,
{
    let le = little_endian(n);
    assert(n == ((((n >> 0) & 0xff) as u8) as u64) | ((((n >> 8) & 0xff) as u8) as u64) << 8 | ((((n
        >> 16) & 0xff) as u8) as u64) << 16 | ((((n >> 24) & 0xff) as u8) as u64) << 24 | ((((n
        >> 32) & 0xff) as u8) as u64) << 32 | ((((n >> 40) & 0xff) as u8) as u64) << 40 | ((((n
        >> 48) & 0xff) as u8) as u64) << 48 | ((((n >> 56) & 0xff) as u8) as u64) << 56)
        by (bit_vector);
    assert(assemble(le) == n);
    assert(big_endian(n).reverse() =~= le);
}

/// Eight bytes are the prefix of exactly one length: the one they announce.
pub proof fn lemma_prefix_unique(order: ByteOrder, bytes: Seq<u8>)
    requires
        bytes.len() == 8,
    ensures
        length_prefix(order, prefix_value(order, bytes)) == bytes,
{
    let b = match order {
        ByteOrder::Little => bytes,
        ByteOrder::Big => bytes.reverse(),
    };
    let n = assemble(b);
    lemma_assemble_octets(b[0], b[1], b[2], b[3], b[4], b[5], b[6], b[7]);
    assert(little_endian(n) =~= b);
    match order {
        ByteOrder::Little => {},
        ByteOrder::Big => {
            assert(big_endian(n) =~= b.reverse());
            assert(b.reverse() =~= bytes);
        },
    }
}

proof fn lemma_assemble_octets(b0: u8, b1: u8, b2: u8, b3: u8, b4: u8, b5: u8, b6: u8, b7: u8)
    ensures
        ({
            let n = (b0 as u64) | (b1 as u64) << 8 | (b2 as u64) << 16 | (b3 as u64) << 24 | (
            b4 as u64) << 32 | (b5 as u64) << 40 | (b6 as u64) << 48 | (b7 as u64) << 56;
            &&& octet(n, 0) == b0
            &&& octet(n, 1) == b1
            &&& octet(n, 2) == b2
            &&& octet(n, 3) == b3
            &&& octet(n, 4) == b4
            &&& octet(n, 5) == b5
            &&& octet(n, 6) == b6
            &&& octet(n, 7) == b7
        }),
{
    let n = (b0 as u64) | (b1 as u64) << 8 | (b2 as u64) << 16 | (b3 as u64) << 24 | (b4 as u64)
        << 32 | (b5 as u64) << 40 | (b6 as u64) << 48 | (b7 as u64) << 56;
    assert(((n >> 0) & 0xff) as u8 == b0 && ((n >> 8) & 0xff) as u8 == b1 && ((n >> 16) & 0xff) as u8
        == b2 && ((n >> 24) & 0xff) as u8 == b3 && ((n >> 32) & 0xff) as u8 == b4 && ((n >> 40)
        & 0xff) as u8 == b5 && ((n >> 48) & 0xff) as u8 == b6 && ((n >> 56) & 0xff) as u8 == b7)
        by (bit_vector)
        requires
            n == (b0 as u64) | (b1 as u64) << 8 | (b2 as u64) << 16 | (b3 as u64) << 24 | (
            b4 as u64) << 32 | (b5 as u64) << 40 | (b6 as u64) << 48 | (b7 as u64) << 56,
    ;
}

/// What `u64::to_ne_bytes` of the standard library gives for `n`: its eight bytes in
/// the order of the machine that runs the program. That is one of the two orders;
/// nothing is claimed about which.
#[verifier::external_body]
fn machine_bytes(n: u64) -> (bytes: Vec<u8>)
    ensures
        bytes@ == little_endian(n) || bytes@ == big_endian(n),
{
    n.to_ne_bytes().to_vec()
}

fn octet_of(n: u64, k: u64) -> (b: u8)
    requires
        k < 8,
    ensures
        b == octet(n, k),
{
    let shift: u64 = 8 * k;
    let low: u64 = (n >> shift) & 0xff;
    assert(low < 256) by (bit_vector)
        requires
            low == (n >> shift) & 0xff,
    ;
    low as u8
}

impl ByteOrder {
    /// The order in which `probe` spells the number one, if it does so in either.
    pub fn identify(probe: &[u8]) -> (found: Option<ByteOrder>)
        ensures
            found == if probe@ == little_endian(1) {
                Some(ByteOrder::Little)
            } else if probe@ == big_endian(1) {
                Some(ByteOrder::Big)
            } else {
                None::<ByteOrder>
            },
    {
        proof {
            lemma_one_spelled();
        }
        if probe.len() != 8 {
            return None;
        }
        let rest_zero = probe[1] == 0 && probe[2] == 0 && probe[3] == 0 && probe[4] == 0
            && probe[5] == 0 && probe[6] == 0;
        if rest_zero && probe[0] == 1 && probe[7] == 0 {
            assert(probe@ =~= little_endian(1));
            Some(ByteOrder::Little)
        } else if rest_zero && probe[0] == 0 && probe[7] == 1 {
            assert(probe@ =~= big_endian(1));
            Some(ByteOrder::Big)
        } else {
            None
        }
    }

    /// The order in which the machine that runs the program lays out a `u64`.
    ///
    /// Found by asking the standard library for the bytes of the number one. Which order
    /// comes back is a fact about the machine, so the contract promises none.
    pub fn native() -> (order: ByteOrder) {
        let probe = machine_bytes(1);
        ByteOrder::identify(probe.as_slice()).unwrap()
    }
}

proof fn lemma_one_spelled()
    ensures
        little_endian(1) =~= seq![1u8, 0u8, 0u8, 0u8, 0u8, 0u8, 0u8, 0u8],
        big_endian(1) =~= seq![0u8, 0u8, 0u8, 0u8, 0u8, 0u8, 0u8, 1u8],
{
    assert(((1u64 >> 0) & 0xff) as u8 == 1 && ((1u64 >> 8) & 0xff) as u8 == 0 && ((1u64 >> 16)
        & 0xff) as u8 == 0 && ((1u64 >> 24) & 0xff) as u8 == 0 && ((1u64 >> 32) & 0xff) as u8 == 0
        && ((1u64 >> 40) & 0xff) as u8 == 0 && ((1u64 >> 48) & 0xff) as u8 == 0 && ((1u64 >> 56)
        & 0xff) as u8 == 0) by (bit_vector);
}

/// Writes the length `n` as the eight bytes that precede a payload.
pub fn encode_length(order: ByteOrder, n: u64) -> (bytes: Vec<u8>)
    ensures
        bytes@ == length_prefix(order, n),
{
    let mut bytes: Vec<u8> = Vec::with_capacity(8);
    let mut i: u64 = 0;
    while i < 8
        invariant
            i <= 8,
            bytes@.len() == i,
            forall|j: int| 0 <= j < i ==> bytes@[j] == length_prefix(order, n)[j],
        decreases 8 - i,
    {
        let k: u64 = match order {
            ByteOrder::Little => i,
            ByteOrder::Big => 7 - i,
        };
        bytes.push(octet_of(n, k));
        i = i + 1;
    }
    assert(bytes@ =~= length_prefix(order, n));
    bytes
}

/// Reads the length that eight bytes announce; `None` unless there are exactly eight.
pub fn decode_length(order: ByteOrder, bytes: &[u8]) -> (length: Option<u64>)
    ensures
        length == if bytes@.len() == 8 {
            Some(prefix_value(order, bytes@))
        } else {
            None::<u64>
        },
{
    if bytes.len() != 8 {
        return None;
    }
    let low_first: [u8; 8] = match order {
        ByteOrder::Little => [
            bytes[0],
            bytes[1],
            bytes[2],
            bytes[3],
            bytes[4],
            bytes[5],
            bytes[6],
            bytes[7],
        ],
        ByteOrder::Big => [
            bytes[7],
            bytes[6],
            bytes[5],
            bytes[4],
            bytes[3],
            bytes[2],
            bytes[1],
            bytes[0],
        ],
    };
    assert(low_first@ =~= match order {
        ByteOrder::Little => bytes@,
        ByteOrder::Big => bytes@.reverse(),
    });
    let value: u64 = (low_first[0] as u64) | (low_first[1] as u64) << 8 | (low_first[2] as u64)
        << 16 | (low_first[3] as u64) << 24 | (low_first[4] as u64) << 32 | (low_first[5] as u64)
        << 40 | (low_first[6] as u64) << 48 | (low_first[7] as u64) << 56;
    Some(value)
}

} // verus!
