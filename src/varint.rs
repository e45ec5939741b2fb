use vstd::prelude::*;

use crate::buffer::{buffer_bytes, buffer_extend};

verus! {

/// Outcome of reading one varint from the head of a buffer.
#[derive(Debug, PartialEq, Eq, Structural)]
pub enum DecodedVarint {
    Decoded { value: u32, bytes: usize },
    NotEnough,
    Invalid,
}

/// A varint read without a bound on its value, before truncation to 32 bits.
pub enum VarintScan {
    Complete { value: nat, len: nat },
    Truncated,
    Overlong,
}

/// Reads one varint of at most `k` bytes from the head of `s`: the value
/// is the base-128 number that the low seven bits of each byte spell, least
/// significant group first.
pub open spec fn scan_varint(s: Seq<u8>, k: nat) -> VarintScan
    decreases k,
{
    if k == 0 {
        VarintScan::Overlong
    } else if s.len() == 0 {
        VarintScan::Truncated
    } else if s[0] < 128 {
        VarintScan::Complete { value: s[0] as nat, len: 1 }
    } else {
        match scan_varint(s.drop_first(), (k - 1) as nat) {
            VarintScan::Complete { value, len } => VarintScan::Complete {
                value: (s[0] - 128) as nat + 128 * value,
                len: len + 1,
            },
            other => other,
        }
    }
}

/// Decoding keeps the low 32 bits of the value: bits that a fifth byte
/// carries past the 32nd are dropped, not rejected.
pub open spec fn decode_spec(s: Seq<u8>) -> DecodedVarint {
    match scan_varint(s, 5) {
        VarintScan::Complete { value, len } => DecodedVarint::Decoded {
            value: (value % 0x1_0000_0000) as u32,
            bytes: len as usize,
        },
        VarintScan::Truncated => DecodedVarint::NotEnough,
        VarintScan::Overlong => DecodedVarint::Invalid,
    }
}

/// The varint that encodes `v`: seven bits per byte, least significant
/// group first, the high bit set on every byte but the last.
pub open spec fn encode_spec(v: nat) -> Seq<u8>
    decreases v,
{
    if v < 128 {
        seq![v as u8]
    } else {
        seq![(v % 128 + 128) as u8] + encode_spec(v / 128)
    }
}

/// Shifts a scan of the tail that starts at byte `i` back over the `i`
/// continuation bytes before it, whose groups sum to `acc`.
pub open spec fn shift_scan(r: VarintScan, acc: nat, mult: nat, i: nat) -> VarintScan {
    match r {
        VarintScan::Complete { value, len } => VarintScan::Complete {
            value: acc + mult * value,
            len: len + i,
        },
        other => other,
    }
}

/// Reads one varint from the head of `buf`.
pub fn try_decode_varint(buf: &[u8]) -> (r: DecodedVarint)
    ensures
        r == decode_spec(buf@),
        r matches DecodedVarint::Decoded { bytes, .. } ==> 1 <= bytes <= 5 && bytes <= buf@.len(),
{
    let mut i: usize = 0;
    let mut acc: u64 = 0;
    let mut mult: u64 = 1;
    proof {
        assert(buf@.skip(0) =~= buf@);
    }
    loop
        invariant
            i <= 5,
            i <= buf@.len(),
            i == 0 ==> mult == 1,
            i == 1 ==> mult == 0x80,
            i == 2 ==> mult == 0x4000,
            i == 3 ==> mult == 0x20_0000,
            i == 4 ==> mult == 0x1000_0000,
            acc < mult,
            scan_varint(buf@, 5) == shift_scan(
                scan_varint(buf@.skip(i as int), (5 - i) as nat),
                acc as nat,
                mult as nat,
                i as nat,
            ),
        decreases 5 - i,
    {
        if i >= 5 {
            return DecodedVarint::Invalid;
        }
        if i >= buf.len() {
            return DecodedVarint::NotEnough;
        }
        let b = buf[i];
        let ghost tail = buf@.skip(i as int);
        proof {
            assert(tail[0] == b);
            assert(tail.drop_first() =~= buf@.skip(i + 1));
        }
        if b < 128 {
            proof {
                assert(mult * (b as u64) <= 0x1000_0000 * 127) by (nonlinear_arith)
                    requires
                        mult <= 0x1000_0000,
                        b < 128,
                ;
            }
            let value: u64 = acc + mult * (b as u64);
            return DecodedVarint::Decoded { value: (value % 0x1_0000_0000) as u32, bytes: i + 1 };
        }
        proof {
            let c = (b - 128) as nat;
            let m = mult as nat;
            let a = acc as nat;
            match scan_varint(buf@.skip(i + 1), (4 - i) as nat) {
                VarintScan::Complete { value, len } => {
                    assert(a + m * (c + 128 * value) == (a + m * c) + (m * 128) * value)
                        by (nonlinear_arith);
                },
                _ => {},
            }
            assert(mult * ((b - 128) as u64) < mult * 128) by (nonlinear_arith)
                requires
                    b < 256,
                    b >= 128,
                    mult > 0,
            ;
        }
        acc = acc + mult * ((b - 128) as u64);
        mult = mult * 128;
        i = i + 1;
    }
}

/// The bytes of the varint that encodes `val`.
pub fn varint_bytes(val: u32) -> (r: Vec<u8>)
    ensures
        r@ == encode_spec(val as nat),
{
    let mut out: Vec<u8> = Vec::new();
    let mut v: u32 = val;
    loop
        invariant
            out@ + encode_spec(v as nat) == encode_spec(val as nat),
        decreases v,
    {
        let b: u8 = (v % 128) as u8;
        let ghost before = out@;
        v = v / 128;
        if v > 0 {
            out.push(b + 128);
            proof {
                assert(before + encode_spec(v as nat * 128 + b as nat) =~= out@ + encode_spec(v as nat));
            }
        } else {
            out.push(b);
            proof {
                assert(out@ =~= before + encode_spec(b as nat));
            }
            return out;
        }
    }
}

/// Appends the varint that encodes `val` to `buf`.
pub fn encode_varint(buf: &mut bytes::BytesMut, val: u32)
    requires
        buffer_bytes(*old(buf)).len() + 5 <= isize::MAX,
    ensures
        buffer_bytes(*final(buf)) == buffer_bytes(*old(buf)) + encode_spec(val as nat),
{
    let encoded = varint_bytes(val);
    proof {
        lemma_encode_len_u32(val);
    }
    buffer_extend(buf, encoded.as_slice());
}

pub open spec fn pow128(k: nat) -> nat
    decreases k,
{
    if k == 0 {
        1
    } else {
        128 * pow128((k - 1) as nat)
    }
}

/// A value below `128^k` takes at most `k` bytes, and every value at least one.
pub proof fn lemma_encode_len(v: nat, k: nat)
    requires
        k >= 1,
        v < pow128(k),
    ensures
        1 <= encode_spec(v).len() <= k,
    decreases v,
{
    if v >= 128 {
        if k == 1 {
            assert(pow128(1) == 128 * pow128(0));
            assert(false);
        }
        let p = pow128((k - 1) as nat);
        assert(v / 128 < p) by (nonlinear_arith)
            requires
                v < 128 * p,
        ;
        lemma_encode_len(v / 128, (k - 1) as nat);
    }
}

/// Every 32-bit value takes one to five bytes.
pub proof fn lemma_encode_len_u32(v: u32)
    ensures
        1 <= encode_spec(v as nat).len() <= 5,
{
    reveal_with_fuel(pow128, 6);
    assert(pow128(5) == 0x8_0000_0000);
    lemma_encode_len(v as nat, 5);
}

/// Scanning the encoding of `v`, whatever follows it, gives back `v` and
/// the encoding's length.
pub proof fn lemma_scan_encoded(v: nat, rest: Seq<u8>, k: nat)
    requires
        encode_spec(v).len() <= k,
    ensures
        scan_varint(encode_spec(v) + rest, k) == (VarintScan::Complete {
            value: v,
            len: encode_spec(v).len(),
        }),
    decreases v,
{
    let s = encode_spec(v) + rest;
    if v >= 128 {
        assert(s.drop_first() =~= encode_spec(v / 128) + rest);
        lemma_scan_encoded(v / 128, rest, (k - 1) as nat);
    }
}

/// A strict prefix of the encoding of `v` is an unfinished varint.
pub proof fn lemma_scan_encoded_prefix(v: nat, j: int, k: nat)
    requires
        encode_spec(v).len() <= k,
        0 <= j < encode_spec(v).len(),
    ensures
        scan_varint(encode_spec(v).take(j), k) == VarintScan::Truncated,
    decreases v,
{
    let p = encode_spec(v).take(j);
    if j > 0 {
        assert(v >= 128);
        assert(p.drop_first() =~= encode_spec(v / 128).take(j - 1));
        lemma_scan_encoded_prefix(v / 128, j - 1, (k - 1) as nat);
    }
}

/// Five continuation bytes in a row make an overlong varint.
pub proof fn lemma_scan_overlong(s: Seq<u8>, k: nat)
    requires
        k <= s.len(),
        forall|j: int| 0 <= j < k ==> s[j] >= 128,
    ensures
        scan_varint(s, k) == VarintScan::Overlong,
    decreases k,
{
    if k > 0 {
        assert forall|j: int| 0 <= j < k - 1 implies s.drop_first()[j] >= 128 by {
            assert(s.drop_first()[j] == s[j + 1]);
        }
        lemma_scan_overlong(s.drop_first(), (k - 1) as nat);
    }
}

/// Decoding the encoding of any 32-bit value gives the value back, and
/// consumes the whole encoding.
pub proof fn lemma_varint_round_trip(v: u32)
    ensures
        decode_spec(encode_spec(v as nat)) == (DecodedVarint::Decoded {
            value: v,
            bytes: encode_spec(v as nat).len() as usize,
        }),
{
    lemma_encode_len_u32(v);
    assert(encode_spec(v as nat) + Seq::<u8>::empty() =~= encode_spec(v as nat));
    lemma_scan_encoded(v as nat, Seq::empty(), 5);
}

/// A decoded varint never spans more than five bytes, nor more bytes than
/// the buffer holds, and five leading bytes that all carry the continuation
/// bit make the buffer invalid.
pub proof fn lemma_varint_bounds(s: Seq<u8>)
    ensures
        decode_spec(s) matches DecodedVarint::Decoded { bytes, .. } ==> 1 <= bytes <= 5
            && bytes <= s.len(),
        (s.len() >= 5 && forall|j: int| 0 <= j < 5 ==> s[j] >= 128) ==> decode_spec(s)
            == DecodedVarint::Invalid,
{
    lemma_scan_len(s, 5);
    if s.len() >= 5 && forall|j: int| 0 <= j < 5 ==> s[j] >= 128 {
        lemma_scan_overlong(s, 5);
    }
}

/// A completed scan spans between one and `k` bytes of `s`.
pub proof fn lemma_scan_len(s: Seq<u8>, k: nat)
    ensures
        scan_varint(s, k) matches VarintScan::Complete { len, .. } ==> 1 <= len <= k && len
            <= s.len(),
    decreases k,
{
    if k > 0 && s.len() > 0 && s[0] >= 128 {
        lemma_scan_len(s.drop_first(), (k - 1) as nat);
    }
}

/// A strict prefix of the encoding of `v` is reported as needing more
/// bytes; once the remaining bytes arrive, whatever follows them, the
/// result is the one the whole encoding gives at once.
pub proof fn lemma_varint_streaming(v: u32, j: int, rest: Seq<u8>)
    requires
        0 <= j < encode_spec(v as nat).len(),
    ensures
        decode_spec(encode_spec(v as nat).take(j)) == DecodedVarint::NotEnough,
        decode_spec(encode_spec(v as nat).take(j) + (encode_spec(v as nat).skip(j) + rest))
            == decode_spec(encode_spec(v as nat)),
{
    let e = encode_spec(v as nat);
    lemma_encode_len_u32(v);
    lemma_scan_encoded_prefix(v as nat, j, 5);
    assert(e.take(j) + (e.skip(j) + rest) =~= e + rest);
    lemma_scan_encoded(v as nat, rest, 5);
    lemma_varint_round_trip(v);
}

} // verus!
