//! Wire format of the payloads the engine reads and writes.
//!
//! Demand payloads (an oracle address plus opaque criteria bytes) and string
//! obligation statements travel as 32-byte-word encodings: each head word is
//! either a value padded on the left or an offset to a dynamic tail, and a
//! dynamic byte string is a length word followed by the bytes padded on the
//! right to a word boundary.  Decoding here is strict: a byte string is
//! accepted exactly when it is the canonical encoding of some value.

use vstd::prelude::*;

verus! {

/// `n` zero bytes.
pub open spec fn zero_bytes(n: nat) -> Seq<u8> {
    Seq::new(n, |i: int| 0u8)
}

/// The 8 bytes of `v`, most significant first.
pub open spec fn be_bytes_u64(v: u64) -> Seq<u8> {
    Seq::new(8, |i: int| (v >> ((8 * (7 - i)) as u64)) as u8)
}

/// The value spelled by 8 bytes, most significant first.
pub open spec fn u64_of_be(s: Seq<u8>) -> u64
    recommends
        s.len() == 8,
{
    ((s[0] as u64) << 56u64) | ((s[1] as u64) << 48u64) | ((s[2] as u64) << 40u64)
        | ((s[3] as u64) << 32u64) | ((s[4] as u64) << 24u64) | ((s[5] as u64) << 16u64)
        | ((s[6] as u64) << 8u64) | (s[7] as u64)
}

/// A word holding an unsigned number.
pub open spec fn abi_word_u64(v: u64) -> Seq<u8> {
    zero_bytes(24) + be_bytes_u64(v)
}

/// A word holding a 20-byte address.
pub open spec fn abi_word_addr(a: Seq<u8>) -> Seq<u8>
    recommends
        a.len() == 20,
{
    zero_bytes(12) + a
}

/// Zero bytes that pad `n` content bytes to a word boundary.
pub open spec fn abi_pad_len(n: nat) -> nat {
    (((32 - (n % 32)) % 32)) as nat
}

/// A dynamic byte string: length word, bytes, padding.
pub open spec fn abi_bytes_tail(data: Seq<u8>) -> Seq<u8>
    recommends
        data.len() < 0x1_0000_0000_0000_0000,
{
    abi_word_u64(data.len() as u64) + data + zero_bytes(abi_pad_len(data.len()))
}

/// Encoding of a demand payload: outer offset, oracle address word,
/// inner offset to the criteria bytes, then the bytes themselves.
pub open spec fn demand_enc(oracle: Seq<u8>, data: Seq<u8>) -> Seq<u8>
    recommends
        oracle.len() == 20,
        data.len() < 0x1_0000_0000_0000_0000,
{
    abi_word_u64(32) + abi_word_addr(oracle) + abi_word_u64(64) + abi_bytes_tail(data)
}

/// Encoding of a string obligation statement: outer offset, inner offset,
/// then the item bytes as a dynamic byte string.
pub open spec fn statement_enc(item: Seq<u8>) -> Seq<u8>
    recommends
        item.len() < 0x1_0000_0000_0000_0000,
{
    abi_word_u64(32) + abi_word_u64(32) + abi_bytes_tail(item)
}

/// Does some demand payload encode to `b`?
pub open spec fn demand_dec_ok(b: Seq<u8>) -> bool {
    exists|od: (Seq<u8>, Seq<u8>)| od.0.len() == 20 && b == demand_enc(od.0, od.1)
}

/// The demand payload that encodes to `b` (unique when it exists).
pub open spec fn demand_dec(b: Seq<u8>) -> (Seq<u8>, Seq<u8>) {
    choose|od: (Seq<u8>, Seq<u8>)| od.0.len() == 20 && b == demand_enc(od.0, od.1)
}

/// Does some statement item encode to `b`?
pub open spec fn statement_dec_ok(b: Seq<u8>) -> bool {
    exists|d: Seq<u8>| b == statement_enc(d)
}

/// The statement item that encodes to `b` (unique when it exists).
pub open spec fn statement_dec(b: Seq<u8>) -> Seq<u8> {
    choose|d: Seq<u8>| b == statement_enc(d)
}

/// Recombining the big-endian bytes of `v` yields `v`.
pub proof fn lemma_be_bytes_roundtrip(v: u64)
    ensures
        u64_of_be(be_bytes_u64(v)) == v,
{
    let s = be_bytes_u64(v);
    assert(s[0] == (v >> 56u64) as u8 && s[1] == (v >> 48u64) as u8 && s[2] == (v >> 40u64) as u8
        && s[3] == (v >> 32u64) as u8 && s[4] == (v >> 24u64) as u8 && s[5] == (v >> 16u64) as u8
        && s[6] == (v >> 8u64) as u8 && s[7] == (v >> 0u64) as u8);
    assert((((v >> 56u64) as u8 as u64) << 56u64) | (((v >> 48u64) as u8 as u64) << 48u64)
        | (((v >> 40u64) as u8 as u64) << 40u64) | (((v >> 32u64) as u8 as u64) << 32u64)
        | (((v >> 24u64) as u8 as u64) << 24u64) | (((v >> 16u64) as u8 as u64) << 16u64)
        | (((v >> 8u64) as u8 as u64) << 8u64) | ((v >> 0u64) as u8 as u64) == v) by (bit_vector);
}

/// Length of a demand encoding.
pub proof fn lemma_demand_enc_len(oracle: Seq<u8>, data: Seq<u8>)
    requires
        oracle.len() == 20,
    ensures
        demand_enc(oracle, data).len() == 128 + data.len() + abi_pad_len(data.len()),
        abi_pad_len(data.len()) < 32,
        (data.len() + abi_pad_len(data.len())) % 32 == 0,
{
}

/// Length of a statement encoding.
pub proof fn lemma_statement_enc_len(item: Seq<u8>)
    ensures
        statement_enc(item).len() == 96 + item.len() + abi_pad_len(item.len()),
        abi_pad_len(item.len()) < 32,
        (item.len() + abi_pad_len(item.len())) % 32 == 0,
{
}

/// Where each component of a demand encoding lies.
pub proof fn lemma_demand_enc_fields(oracle: Seq<u8>, data: Seq<u8>)
    requires
        oracle.len() == 20,
        data.len() < 0x1_0000_0000_0000_0000,
    ensures
        demand_enc(oracle, data).subrange(44, 64) =~= oracle,
        demand_enc(oracle, data).subrange(96, 128) =~= abi_word_u64(data.len() as u64),
        demand_enc(oracle, data).subrange(128, 128 + data.len() as int) =~= data,
{
    lemma_demand_enc_len(oracle, data);
}

/// Where each component of a statement encoding lies.
pub proof fn lemma_statement_enc_fields(item: Seq<u8>)
    requires
        item.len() < 0x1_0000_0000_0000_0000,
    ensures
        statement_enc(item).subrange(64, 96) =~= abi_word_u64(item.len() as u64),
        statement_enc(item).subrange(96, 96 + item.len() as int) =~= item,
{
    lemma_statement_enc_len(item);
}

/// A demand encoding determines the payload it encodes.
pub proof fn lemma_demand_enc_injective(o1: Seq<u8>, d1: Seq<u8>, o2: Seq<u8>, d2: Seq<u8>)
    requires
        o1.len() == 20,
        o2.len() == 20,
        d1.len() < 0x1_0000_0000_0000_0000,
        d2.len() < 0x1_0000_0000_0000_0000,
        demand_enc(o1, d1) == demand_enc(o2, d2),
    ensures
        o1 == o2,
        d1 == d2,
{
    lemma_demand_enc_len(o1, d1);
    lemma_demand_enc_len(o2, d2);
    lemma_demand_enc_fields(o1, d1);
    lemma_demand_enc_fields(o2, d2);
    assert(abi_word_u64(d1.len() as u64) =~= abi_word_u64(d2.len() as u64));
    assert forall|i: int| 0 <= i < 8 implies #[trigger] be_bytes_u64(d1.len() as u64)[i]
        == be_bytes_u64(d2.len() as u64)[i] by {
        assert(abi_word_u64(d1.len() as u64)[24 + i] == abi_word_u64(d2.len() as u64)[24 + i]);
    }
    assert(be_bytes_u64(d1.len() as u64) =~= be_bytes_u64(d2.len() as u64));
    lemma_be_bytes_roundtrip(d1.len() as u64);
    lemma_be_bytes_roundtrip(d2.len() as u64);
    assert(d1.len() == d2.len());
    assert(d1 =~= d2);
    assert(o1 =~= o2);
}

/// A statement encoding determines the item it encodes.
pub proof fn lemma_statement_enc_injective(d1: Seq<u8>, d2: Seq<u8>)
    requires
        d1.len() < 0x1_0000_0000_0000_0000,
        d2.len() < 0x1_0000_0000_0000_0000,
        statement_enc(d1) == statement_enc(d2),
    ensures
        d1 == d2,
{
    lemma_statement_enc_len(d1);
    lemma_statement_enc_len(d2);
    lemma_statement_enc_fields(d1);
    lemma_statement_enc_fields(d2);
    assert(abi_word_u64(d1.len() as u64) =~= abi_word_u64(d2.len() as u64));
    assert forall|i: int| 0 <= i < 8 implies #[trigger] be_bytes_u64(d1.len() as u64)[i]
        == be_bytes_u64(d2.len() as u64)[i] by {
        assert(abi_word_u64(d1.len() as u64)[24 + i] == abi_word_u64(d2.len() as u64)[24 + i]);
    }
    assert(be_bytes_u64(d1.len() as u64) =~= be_bytes_u64(d2.len() as u64));
    lemma_be_bytes_roundtrip(d1.len() as u64);
    lemma_be_bytes_roundtrip(d2.len() as u64);
    assert(d1.len() == d2.len());
    assert(d1 =~= d2);
}

/// Append the 8 big-endian bytes of `v`.
fn push_be_u64(out: &mut Vec<u8>, v: u64)
    ensures
        final(out)@ == old(out)@ + be_bytes_u64(v),
{
    let ghost pre = out@;
    let mut j: usize = 0;
    while j < 8
        invariant
            j <= 8,
            out@ == pre + be_bytes_u64(v).take(j as int),
        decreases 8 - j,
    {
        let sh: u64 = 8 * (7 - j as u64);
        out.push((v >> sh) as u8);
        proof {
            assert(be_bytes_u64(v).take(j + 1) =~= be_bytes_u64(v).take(j as int) + seq![
                be_bytes_u64(v)[j as int],
            ]);
            assert(out@ =~= pre + be_bytes_u64(v).take(j + 1));
        }
        j = j + 1;
    }
    assert(be_bytes_u64(v).take(8) =~= be_bytes_u64(v));
}

/// Append `n` zero bytes.
fn push_zeros(out: &mut Vec<u8>, n: usize)
    requires
        old(out)@.len() + n <= usize::MAX,
    ensures
        final(out)@ == old(out)@ + zero_bytes(n as nat),
{
    let ghost pre = out@;
    let mut j: usize = 0;
    while j < n
        invariant
            j <= n,
            out@ == pre + zero_bytes(j as nat),
        decreases n - j,
    {
        out.push(0u8);
        proof {
            assert(out@ =~= pre + zero_bytes((j + 1) as nat));
        }
        j = j + 1;
    }
}

/// Append a number word.
fn push_word_u64(out: &mut Vec<u8>, v: u64)
    requires
        old(out)@.len() + 32 <= usize::MAX,
    ensures
        final(out)@ == old(out)@ + abi_word_u64(v),
{
    let ghost pre = out@;
    push_zeros(out, 24);
    push_be_u64(out, v);
    assert(out@ =~= pre + abi_word_u64(v));
}

/// Append an address word.
fn push_word_addr(out: &mut Vec<u8>, a: &Vec<u8>)
    requires
        a@.len() == 20,
        old(out)@.len() + 32 <= usize::MAX,
    ensures
        final(out)@ == old(out)@ + abi_word_addr(a@),
{
    let ghost pre = out@;
    push_zeros(out, 12);
    let mut j: usize = 0;
    while j < 20
        invariant
            j <= 20,
            a@.len() == 20,
            out@ == pre + zero_bytes(12) + a@.take(j as int),
        decreases 20 - j,
    {
        out.push(a[j]);
        proof {
            assert(out@ =~= pre + zero_bytes(12) + a@.take(j + 1));
        }
        j = j + 1;
    }
    assert(out@ =~= pre + abi_word_addr(a@));
}

/// Append a dynamic byte string: length word, bytes, padding.
fn push_bytes_tail(out: &mut Vec<u8>, data: &Vec<u8>)
    requires
        old(out)@.len() + 32 + data@.len() + abi_pad_len(data@.len()) <= usize::MAX,
    ensures
        final(out)@ == old(out)@ + abi_bytes_tail(data@),
{
    let ghost pre = out@;
    push_word_u64(out, data.len() as u64);
    let mut j: usize = 0;
    while j < data.len()
        invariant
            j <= data@.len(),
            pre.len() + 32 + data@.len() + abi_pad_len(data@.len()) <= usize::MAX,
            out@ == pre + abi_word_u64(data@.len() as u64) + data@.take(j as int),
        decreases data@.len() - j,
    {
        out.push(data[j]);
        proof {
            assert(out@ =~= pre + abi_word_u64(data@.len() as u64) + data@.take(j + 1));
        }
        j = j + 1;
    }
    assert(data@.take(data@.len() as int) =~= data@);
    let pad = (32 - data.len() % 32) % 32;
    assert(pad as nat >= abi_pad_len(data@.len()));
    push_zeros(out, pad);
    assert(out@ =~= pre + abi_bytes_tail(data@));
}

/// Encode a demand payload.
pub fn encode_demand(oracle: &Vec<u8>, data: &Vec<u8>) -> (r: Vec<u8>)
    requires
        oracle@.len() == 20,
        128 + data@.len() + abi_pad_len(data@.len()) <= usize::MAX,
    ensures
        r@ == demand_enc(oracle@, data@),
{
    let mut out: Vec<u8> = Vec::new();
    push_word_u64(&mut out, 32);
    push_word_addr(&mut out, oracle);
    push_word_u64(&mut out, 64);
    push_bytes_tail(&mut out, data);
    assert(out@ =~= demand_enc(oracle@, data@));
    out
}

/// Encode a string obligation statement from its item bytes.
pub fn encode_statement(item: &Vec<u8>) -> (r: Vec<u8>)
    requires
        96 + item@.len() + abi_pad_len(item@.len()) <= usize::MAX,
    ensures
        r@ == statement_enc(item@),
{
    let mut out: Vec<u8> = Vec::new();
    push_word_u64(&mut out, 32);
    push_word_u64(&mut out, 32);
    push_bytes_tail(&mut out, item);
    assert(out@ =~= statement_enc(item@));
    out
}

/// Read 8 bytes at `off` as a big-endian number.
fn read_be_u64(b: &Vec<u8>, off: usize) -> (r: u64)
    requires
        off + 8 <= b@.len(),
    ensures
        r == u64_of_be(b@.subrange(off as int, off as int + 8)),
{
    let blen = b.len();
    assert(off + 8 <= blen);
    let r = ((b[off] as u64) << 56u64) | ((b[off + 1] as u64) << 48u64) | ((b[off + 2] as u64)
        << 40u64) | ((b[off + 3] as u64) << 32u64) | ((b[off + 4] as u64) << 24u64) | ((b[off
        + 5] as u64) << 16u64) | ((b[off + 6] as u64) << 8u64) | (b[off + 7] as u64);
    proof {
        let s = b@.subrange(off as int, off as int + 8);
        assert(s[0] == b@[off as int] && s[1] == b@[off + 1] && s[2] == b@[off + 2] && s[3] == b@[
            off + 3] && s[4] == b@[off + 4] && s[5] == b@[off + 5] && s[6] == b@[off + 6] && s[7]
            == b@[off + 7]);
    }
    r
}

/// Do two byte vectors hold the same bytes?
pub fn bytes_eq(a: &Vec<u8>, b: &Vec<u8>) -> (r: bool)
    ensures
        r <==> a@ == b@,
{
    if a.len() != b.len() {
        return false;
    }
    let mut i: usize = 0;
    while i < a.len()
        invariant
            i <= a@.len(),
            a@.len() == b@.len(),
            forall|k: int| 0 <= k < i ==> a@[k] == b@[k],
        decreases a@.len() - i,
    {
        if a[i] != b[i] {
            return false;
        }
        i = i + 1;
    }
    proof {
        assert(a@ =~= b@);
    }
    true
}

/// Copy `len` bytes of `b` starting at `off`.
fn sub_vec(b: &Vec<u8>, off: usize, len: usize) -> (r: Vec<u8>)
    requires
        off + len <= b@.len(),
    ensures
        r@ == b@.subrange(off as int, off as int + len),
{
    let blen = b.len();
    let mut out: Vec<u8> = Vec::new();
    let mut j: usize = 0;
    while j < len
        invariant
            j <= len,
            off + len <= blen,
            blen == b@.len(),
            out@ == b@.subrange(off as int, off as int + j),
        decreases len - j,
    {
        out.push(b[off + j]);
        proof {
            assert(out@ =~= b@.subrange(off as int, off as int + j + 1));
        }
        j = j + 1;
    }
    out
}

/// What every demand payload that encodes to `b` must look like.
proof fn lemma_demand_candidate(b: Seq<u8>)
    requires
        b.len() <= usize::MAX,
        demand_dec_ok(b),
    ensures
        ({
            let od = demand_dec(b);
            &&& od.0.len() == 20
            &&& od.1.len() < 0x1_0000_0000_0000_0000
            &&& b == demand_enc(od.0, od.1)
            &&& b.len() == 128 + od.1.len() + abi_pad_len(od.1.len())
            &&& b.subrange(44, 64) == od.0
            &&& u64_of_be(b.subrange(120, 128)) == od.1.len() as u64
            &&& b.subrange(128, 128 + od.1.len() as int) == od.1
        }),
{
    let od = choose|od: (Seq<u8>, Seq<u8>)| od.0.len() == 20 && b == demand_enc(od.0, od.1);
    lemma_demand_enc_len(od.0, od.1);
    lemma_demand_enc_fields(od.0, od.1);
    assert(b.subrange(96, 128) == abi_word_u64(od.1.len() as u64));
    assert(b.subrange(120, 128) =~= abi_word_u64(od.1.len() as u64).subrange(24, 32));
    assert(abi_word_u64(od.1.len() as u64).subrange(24, 32) =~= be_bytes_u64(od.1.len() as u64));
    lemma_be_bytes_roundtrip(od.1.len() as u64);
}

/// What every statement item that encodes to `b` must look like.
proof fn lemma_statement_candidate(b: Seq<u8>)
    requires
        b.len() <= usize::MAX,
        statement_dec_ok(b),
    ensures
        ({
            let item = statement_dec(b);
            &&& item.len() < 0x1_0000_0000_0000_0000
            &&& b == statement_enc(item)
            &&& b.len() == 96 + item.len() + abi_pad_len(item.len())
            &&& u64_of_be(b.subrange(88, 96)) == item.len() as u64
            &&& b.subrange(96, 96 + item.len() as int) == item
        }),
{
    let item = choose|d: Seq<u8>| b == statement_enc(d);
    lemma_statement_enc_len(item);
    lemma_statement_enc_fields(item);
    assert(b.subrange(64, 96) == abi_word_u64(item.len() as u64));
    assert(b.subrange(88, 96) =~= abi_word_u64(item.len() as u64).subrange(24, 32));
    assert(abi_word_u64(item.len() as u64).subrange(24, 32) =~= be_bytes_u64(item.len() as u64));
    lemma_be_bytes_roundtrip(item.len() as u64);
}

/// Decode a demand payload; succeeds exactly on canonical encodings.
pub fn decode_demand(b: &Vec<u8>) -> (r: Option<(Vec<u8>, Vec<u8>)>)
    ensures
        match r {
            Some(od) => demand_dec_ok(b@) && od.0@ == demand_dec(b@).0 && od.1@ == demand_dec(
                b@,
            ).1 && od.0@.len() == 20 && b@ == demand_enc(od.0@, od.1@),
            None => !demand_dec_ok(b@),
        },
{
    if b.len() < 128 {
        proof {
            if demand_dec_ok(b@) {
                lemma_demand_candidate(b@);
            }
        }
        return None;
    }
    let n = read_be_u64(b, 120);
    let pad = if n % 32 == 0 {
        0u64
    } else {
        32 - n % 32
    };
    if (b.len() as u128) != 128u128 + (n as u128) + (pad as u128) {
        proof {
            if demand_dec_ok(b@) {
                lemma_demand_candidate(b@);
            }
        }
        return None;
    }
    let m = n as usize;
    proof {
        assert(m == n);
        assert(pad as nat == abi_pad_len(m as nat));
        assert(128 + m + abi_pad_len(m as nat) == b@.len());
    }
    let oracle = sub_vec(b, 44, 20);
    let data = sub_vec(b, 128, m);
    let expected = encode_demand(&oracle, &data);
    if bytes_eq(b, &expected) {
        proof {
            assert(((oracle@, data@)).0.len() == 20 && b@ == demand_enc(
                ((oracle@, data@)).0,
                ((oracle@, data@)).1,
            ));
            assert(demand_dec_ok(b@));
            lemma_demand_candidate(b@);
            let od = demand_dec(b@);
            lemma_demand_enc_injective(od.0, od.1, oracle@, data@);
        }
        Some((oracle, data))
    } else {
        proof {
            if demand_dec_ok(b@) {
                lemma_demand_candidate(b@);
                let od = demand_dec(b@);
                assert(od.0 == oracle@);
                assert(od.1 == data@);
                assert(b@ == demand_enc(oracle@, data@));
            }
        }
        None
    }
}

/// Decode a string obligation statement; succeeds exactly on canonical
/// encodings, returning the item bytes.
pub fn decode_statement(b: &Vec<u8>) -> (r: Option<Vec<u8>>)
    ensures
        match r {
            Some(item) => statement_dec_ok(b@) && item@ == statement_dec(b@) && b@ == statement_enc(
                item@,
            ),
            None => !statement_dec_ok(b@),
        },
{
    if b.len() < 96 {
        proof {
            if statement_dec_ok(b@) {
                lemma_statement_candidate(b@);
            }
        }
        return None;
    }
    let n = read_be_u64(b, 88);
    let pad = if n % 32 == 0 {
        0u64
    } else {
        32 - n % 32
    };
    if (b.len() as u128) != 96u128 + (n as u128) + (pad as u128) {
        proof {
            if statement_dec_ok(b@) {
                lemma_statement_candidate(b@);
            }
        }
        return None;
    }
    let m = n as usize;
    proof {
        assert(m == n);
        assert(pad as nat == abi_pad_len(m as nat));
        assert(96 + m + abi_pad_len(m as nat) == b@.len());
    }
    let item = sub_vec(b, 96, m);
    let expected = encode_statement(&item);
    if bytes_eq(b, &expected) {
        proof {
            assert(b@ == statement_enc(item@));
            assert(statement_dec_ok(b@));
            lemma_statement_candidate(b@);
            lemma_statement_enc_injective(statement_dec(b@), item@);
        }
        Some(item)
    } else {
        proof {
            if statement_dec_ok(b@) {
                lemma_statement_candidate(b@);
                assert(b@ == statement_enc(item@));
            }
        }
        None
    }
}

/// Encoding of an ERC20 escrow obligation statement: outer offset, token
/// address, amount, arbiter address, inner offset, demand bytes.
pub open spec fn erc20_escrow_enc(token: Seq<u8>, amount: u64, arbiter: Seq<u8>, demand: Seq<
    u8,
>) -> Seq<u8>
    recommends
        token.len() == 20,
        arbiter.len() == 20,
        demand.len() < 0x1_0000_0000_0000_0000,
{
    abi_word_u64(32) + abi_word_addr(token) + abi_word_u64(amount) + abi_word_addr(arbiter)
        + abi_word_u64(128) + abi_bytes_tail(demand)
}

/// Encoding of an ERC20 payment obligation statement: token address, amount,
/// payee address.  All members are static, so there are no offsets.
pub open spec fn erc20_payment_enc(token: Seq<u8>, amount: u64, payee: Seq<u8>) -> Seq<u8>
    recommends
        token.len() == 20,
        payee.len() == 20,
{
    abi_word_addr(token) + abi_word_u64(amount) + abi_word_addr(payee)
}

/// Encode an ERC20 escrow obligation statement.
pub fn encode_erc20_escrow(token: &Vec<u8>, amount: u64, arbiter: &Vec<u8>, demand: &Vec<u8>) -> (r:
    Vec<u8>)
    requires
        token@.len() == 20,
        arbiter@.len() == 20,
        192 + demand@.len() + abi_pad_len(demand@.len()) <= usize::MAX,
    ensures
        r@ == erc20_escrow_enc(token@, amount, arbiter@, demand@),
{
    let mut out: Vec<u8> = Vec::new();
    push_word_u64(&mut out, 32);
    push_word_addr(&mut out, token);
    push_word_u64(&mut out, amount);
    push_word_addr(&mut out, arbiter);
    push_word_u64(&mut out, 128);
    push_bytes_tail(&mut out, demand);
    assert(out@ =~= erc20_escrow_enc(token@, amount, arbiter@, demand@));
    out
}

/// Encode an ERC20 payment obligation statement.
pub fn encode_erc20_payment(token: &Vec<u8>, amount: u64, payee: &Vec<u8>) -> (r: Vec<u8>)
    requires
        token@.len() == 20,
        payee@.len() == 20,
    ensures
        r@ == erc20_payment_enc(token@, amount, payee@),
{
    let mut out: Vec<u8> = Vec::new();
    push_word_addr(&mut out, token);
    push_word_u64(&mut out, amount);
    push_word_addr(&mut out, payee);
    assert(out@ =~= erc20_payment_enc(token@, amount, payee@));
    out
}

/// Copy a byte vector.
pub fn copy_bytes(v: &Vec<u8>) -> (r: Vec<u8>)
    ensures
        r@ == v@,
{
    let r = sub_vec(v, 0, v.len());
    assert(v@.subrange(0, v@.len() as int) =~= v@);
    r
}

} // verus!
