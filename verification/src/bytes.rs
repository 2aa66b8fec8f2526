//! Byte images of GPU buffer contents.
//!
//! An index buffer of `u16` values becomes two bytes per index, and a buffer
//! of 32-bit words (the bit patterns of the shader's `f32` inputs) becomes
//! four bytes per word, in the order the values keep in memory. The caller
//! names that order: `ByteOrder::Little` puts the lowest byte first,
//! `ByteOrder::Big` the highest. With the target's own order, the image is
//! the values' memory as it lies.
use vstd::prelude::*;

verus! {

/// Order of the bytes of one value in memory.
#[derive(PartialEq, Eq, Structural, Clone, Copy, Debug)]
pub enum ByteOrder {
    /// Lowest byte first.
    Little,
    /// Highest byte first.
    Big,
}

/// Byte `b` (0 = lowest) of the 32-bit word `x`.
pub open spec fn word_byte(x: u32, b: int) -> u8 {
    if b == 0 {
        (x % 0x100) as u8
    } else if b == 1 {
        ((x / 0x100) % 0x100) as u8
    } else if b == 2 {
        ((x / 0x1_0000) % 0x100) as u8
    } else {
        (x / 0x100_0000) as u8
    }
}

/// Byte `b` (0 = lowest) of the 16-bit value `x`.
pub open spec fn half_byte(x: u16, b: int) -> u8 {
    if b == 0 {
        (x % 0x100) as u8
    } else {
        (x / 0x100) as u8
    }
}

/// Which byte of a value of `width` bytes lies at position `k` of its image.
pub open spec fn byte_rank(order: ByteOrder, width: int, k: int) -> int {
    match order {
        ByteOrder::Little => k,
        ByteOrder::Big => width - 1 - k,
    }
}

/// Image of a sequence of 16-bit values, two bytes per value in `order`.
pub open spec fn spec_u16_bytes(data: Seq<u16>, order: ByteOrder) -> Seq<u8> {
    Seq::new(2 * data.len(), |k: int| half_byte(data[k / 2], byte_rank(order, 2, k % 2)))
}

/// Image of a sequence of 32-bit words, four bytes per word in `order`.
pub open spec fn spec_u32_bytes(data: Seq<u32>, order: ByteOrder) -> Seq<u8> {
    Seq::new(4 * data.len(), |k: int| word_byte(data[k / 4], byte_rank(order, 4, k % 4)))
}

/// The 16-bit value that two bytes encode in `order`.
pub open spec fn u16_value(order: ByteOrder, b0: u8, b1: u8) -> int {
    match order {
        ByteOrder::Little => b0 + 0x100 * b1,
        ByteOrder::Big => 0x100 * b0 + b1,
    }
}

/// The 32-bit value that four bytes encode in `order`.
pub open spec fn u32_value(order: ByteOrder, b0: u8, b1: u8, b2: u8, b3: u8) -> int {
    match order {
        ByteOrder::Little => b0 + 0x100 * b1 + 0x1_0000 * b2 + 0x100_0000 * b3,
        ByteOrder::Big => 0x100_0000 * b0 + 0x1_0000 * b1 + 0x100 * b2 + b3,
    }
}

/// Bytes of an index buffer, two per index, in `order`.
pub fn indices_as_bytes(data: &[u16], order: ByteOrder) -> (bytes: Vec<u8>)
    ensures
        bytes@ == spec_u16_bytes(data@, order),
{
    let mut bytes: Vec<u8> = Vec::new();
    let n = data.len();
    let mut i: usize = 0;
    while i < n
        invariant
            n == data@.len(),
            i <= n,
            bytes@ =~= spec_u16_bytes(data@.take(i as int), order),
        decreases n - i,
    {
        let x: u16 = data[i];
        let lo: u8 = (x % 0x100) as u8;
        let hi: u8 = (x / 0x100) as u8;
        match order {
            ByteOrder::Little => {
                bytes.push(lo);
                bytes.push(hi);
            },
            ByteOrder::Big => {
                bytes.push(hi);
                bytes.push(lo);
            },
        }
        i = i + 1;
        proof {
            let s = data@.take(i as int);
            assert forall|k: int| 0 <= k < 2 * s.len() implies bytes@[k] == spec_u16_bytes(s, order)[k] by {
                assert(s[k / 2] == data@[k / 2]);
                if k < 2 * (i - 1) {
                    assert(data@.take(i - 1)[k / 2] == data@[k / 2]);
                }
            }
            assert(bytes@ =~= spec_u16_bytes(s, order));
        }
    }
    assert(data@.take(n as int) =~= data@);
    bytes
}

/// Bytes of a buffer of 32-bit words, four per word, in `order`.
pub fn words_as_bytes(data: &[u32], order: ByteOrder) -> (bytes: Vec<u8>)
    ensures
        bytes@ == spec_u32_bytes(data@, order),
{
    let mut bytes: Vec<u8> = Vec::new();
    let n = data.len();
    let mut i: usize = 0;
    while i < n
        invariant
            n == data@.len(),
            i <= n,
            bytes@ =~= spec_u32_bytes(data@.take(i as int), order),
        decreases n - i,
    {
        let x: u32 = data[i];
        let b0: u8 = (x % 0x100) as u8;
        let b1: u8 = ((x / 0x100) % 0x100) as u8;
        let b2: u8 = ((x / 0x1_0000) % 0x100) as u8;
        let b3: u8 = (x / 0x100_0000) as u8;
        match order {
            ByteOrder::Little => {
                bytes.push(b0);
                bytes.push(b1);
                bytes.push(b2);
                bytes.push(b3);
            },
            ByteOrder::Big => {
                bytes.push(b3);
                bytes.push(b2);
                bytes.push(b1);
                bytes.push(b0);
            },
        }
        i = i + 1;
        proof {
            let s = data@.take(i as int);
            assert forall|k: int| 0 <= k < 4 * s.len() implies bytes@[k] == spec_u32_bytes(s, order)[k] by {
                assert(s[k / 4] == data@[k / 4]);
                if k < 4 * (i - 1) {
                    assert(data@.take(i - 1)[k / 4] == data@[k / 4]);
                }
            }
            assert(bytes@ =~= spec_u32_bytes(s, order));
        }
    }
    assert(data@.take(n as int) =~= data@);
    bytes
}

/// The image of two index sequences joined is the image of the first followed
/// by that of the second; the image of no indices is empty.
pub proof fn lemma_u16_bytes_concat(a: Seq<u16>, b: Seq<u16>, order: ByteOrder)
    ensures
        spec_u16_bytes(a + b, order) == spec_u16_bytes(a, order) + spec_u16_bytes(b, order),
        spec_u16_bytes(Seq::<u16>::empty(), order) == Seq::<u8>::empty(),
{
    let l = spec_u16_bytes(a + b, order);
    let r = spec_u16_bytes(a, order) + spec_u16_bytes(b, order);
    assert forall|k: int| 0 <= k < l.len() implies l[k] == r[k] by {
        if k < 2 * a.len() {
            assert((a + b)[k / 2] == a[k / 2]);
        } else {
            let m = k - 2 * a.len();
            assert(m / 2 == k / 2 - a.len() && m % 2 == k % 2);
            assert((a + b)[k / 2] == b[m / 2]);
        }
    }
    assert(l =~= r);
    assert(spec_u16_bytes(Seq::<u16>::empty(), order) =~= Seq::<u8>::empty());
}

/// The image of two word sequences joined is the image of the first followed
/// by that of the second; the image of no words is empty.
pub proof fn lemma_u32_bytes_concat(a: Seq<u32>, b: Seq<u32>, order: ByteOrder)
    ensures
        spec_u32_bytes(a + b, order) == spec_u32_bytes(a, order) + spec_u32_bytes(b, order),
        spec_u32_bytes(Seq::<u32>::empty(), order) == Seq::<u8>::empty(),
{
    let l = spec_u32_bytes(a + b, order);
    let r = spec_u32_bytes(a, order) + spec_u32_bytes(b, order);
    assert forall|k: int| 0 <= k < l.len() implies l[k] == r[k] by {
        if k < 4 * a.len() {
            assert((a + b)[k / 4] == a[k / 4]);
        } else {
            let m = k - 4 * a.len();
            assert(m / 4 == k / 4 - a.len() && m % 4 == k % 4);
            assert((a + b)[k / 4] == b[m / 4]);
        }
    }
    assert(l =~= r);
    assert(spec_u32_bytes(Seq::<u32>::empty(), order) =~= Seq::<u8>::empty());
}

/// Reading the index buffer's bytes back in the same order, two at a time,
/// gives every index unchanged.
pub proof fn lemma_u16_bytes_decode(data: Seq<u16>, order: ByteOrder)
    ensures
        spec_u16_bytes(data, order).len() == 2 * data.len(),
        forall|i: int|
            0 <= i < data.len() ==> u16_value(
                order,
                #[trigger] spec_u16_bytes(data, order)[2 * i],
                spec_u16_bytes(data, order)[2 * i + 1],
            ) == data[i],
{
    assert forall|i: int| 0 <= i < data.len() implies u16_value(
        order,
        #[trigger] spec_u16_bytes(data, order)[2 * i],
        spec_u16_bytes(data, order)[2 * i + 1],
    ) == data[i] by {
        assert((2 * i) / 2 == i && (2 * i) % 2 == 0);
        assert((2 * i + 1) / 2 == i && (2 * i + 1) % 2 == 1);
        let x = data[i];
        assert(x == (x % 0x100) + 0x100 * (x / 0x100)) by (bit_vector);
    }
}

/// Reading a word buffer's bytes back in the same order, four at a time,
/// gives every word unchanged.
pub proof fn lemma_u32_bytes_decode(data: Seq<u32>, order: ByteOrder)
    ensures
        spec_u32_bytes(data, order).len() == 4 * data.len(),
        forall|i: int|
            0 <= i < data.len() ==> u32_value(
                order,
                #[trigger] spec_u32_bytes(data, order)[4 * i],
                spec_u32_bytes(data, order)[4 * i + 1],
                spec_u32_bytes(data, order)[4 * i + 2],
                spec_u32_bytes(data, order)[4 * i + 3],
            ) == data[i],
{
    assert forall|i: int| 0 <= i < data.len() implies u32_value(
        order,
        #[trigger] spec_u32_bytes(data, order)[4 * i],
        spec_u32_bytes(data, order)[4 * i + 1],
        spec_u32_bytes(data, order)[4 * i + 2],
        spec_u32_bytes(data, order)[4 * i + 3],
    ) == data[i] by {
        assert((4 * i) / 4 == i && (4 * i) % 4 == 0);
        assert((4 * i + 1) / 4 == i && (4 * i + 1) % 4 == 1);
        assert((4 * i + 2) / 4 == i && (4 * i + 2) % 4 == 2);
        assert((4 * i + 3) / 4 == i && (4 * i + 3) % 4 == 3);
        let x = data[i];
        assert(x == (x % 0x100) + 0x100 * ((x / 0x100) % 0x100) + 0x1_0000 * ((x / 0x1_0000)
            % 0x100) + 0x100_0000 * (x / 0x100_0000)) by (bit_vector);
    }
}

/// The two byte orders give the same bytes within each value, reversed.
pub proof fn lemma_byte_orders_mirror(data: Seq<u32>)
    ensures
        forall|i: int, j: int|
            0 <= i < data.len() && 0 <= j < 4 ==> #[trigger] spec_u32_bytes(data, ByteOrder::Big)[4
                * i + j] == spec_u32_bytes(data, ByteOrder::Little)[4 * i + 3 - j],
{
    assert forall|i: int, j: int|
        0 <= i < data.len() && 0 <= j < 4 implies #[trigger] spec_u32_bytes(data, ByteOrder::Big)[4
            * i + j] == spec_u32_bytes(data, ByteOrder::Little)[4 * i + 3 - j] by {
        assert((4 * i + j) / 4 == i && (4 * i + j) % 4 == j);
        assert((4 * i + 3 - j) / 4 == i && (4 * i + 3 - j) % 4 == 3 - j);
    }
}

} // verus!
