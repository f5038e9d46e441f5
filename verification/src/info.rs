//! The 64-bit loop status record and its exact wire format.
//!
//! The kernel exchanges this record as a fixed binary layout: five 64-bit
//! words, four 32-bit words, two 64-byte null-padded name fields, a 32-byte
//! key field, and two reserved 64-bit words, in that order, 232 bytes in all,
//! each word little-endian. `encode` and `decode` realize that layout and are
//! proved inverse to each other.

use vstd::prelude::*;

verus! {

use vstd::string::StringSliceAdditionalSpecFns;

/// Width in bytes of the two name fields of the status record.
pub const LO_NAME_SIZE: usize = 64;

/// Width in bytes of the encryption key field of the status record.
pub const LO_KEY_SIZE: usize = 32;

/// Total width in bytes of the encoded status record.
pub const LOOP_INFO64_SIZE: usize = 232;

/// The little-endian bytes of `x`, `n` bytes wide.
pub open spec fn le_bytes(x: nat, n: nat) -> Seq<u8>
    decreases n,
{
    if n == 0 {
        seq![]
    } else {
        seq![(x % 256) as u8] + le_bytes(x / 256, (n - 1) as nat)
    }
}

/// The value of a little-endian byte string.
pub open spec fn le_value(s: Seq<u8>) -> nat
    decreases s.len(),
{
    if s.len() == 0 {
        0
    } else {
        (s[0] + 256 * le_value(s.drop_first())) as nat
    }
}

/// 256 to the power `n`: the number of values an `n`-byte field can hold.
pub open spec fn pow256(n: nat) -> nat
    decreases n,
{
    if n == 0 {
        1nat
    } else {
        256 * pow256((n - 1) as nat)
    }
}

pub proof fn lemma_pow256_pos(n: nat)
    ensures
        pow256(n) >= 1,
    decreases n,
{
    if n > 0 {
        lemma_pow256_pos((n - 1) as nat);
    }
}

pub proof fn lemma_pow256_mono(a: nat, b: nat)
    requires
        a <= b,
    ensures
        pow256(a) <= pow256(b),
    decreases b,
{
    if a < b {
        lemma_pow256_mono(a, (b - 1) as nat);
        lemma_pow256_pos((b - 1) as nat);
    }
}

pub proof fn lemma_le_bytes_len(x: nat, n: nat)
    ensures
        le_bytes(x, n).len() == n,
    decreases n,
{
    if n > 0 {
        lemma_le_bytes_len(x / 256, (n - 1) as nat);
    }
}

/// An `n`-byte field holds a value below 256 to the `n`.
pub proof fn lemma_le_value_bound(s: Seq<u8>)
    ensures
        le_value(s) < pow256(s.len()),
    decreases s.len(),
{
    if s.len() > 0 {
        lemma_le_value_bound(s.drop_first());
    }
}

/// Reading back the little-endian bytes of a value that fits the field
/// recovers the value.
pub proof fn lemma_le_round_trip(x: nat, n: nat)
    requires
        x < pow256(n),
    ensures
        le_value(le_bytes(x, n)) == x,
    decreases n,
{
    if n > 0 {
        let k = pow256((n - 1) as nat);
        assert(x == 256 * (x / 256) + x % 256);
        assert(x / 256 < k) by {
            if x / 256 >= k {
                assert(256 * (x / 256) >= 256 * k);
            }
        }
        lemma_le_round_trip(x / 256, (n - 1) as nat);
        assert(le_bytes(x, n).drop_first() =~= le_bytes(x / 256, (n - 1) as nat));
    }
}

/// Re-encoding the value of a byte string at its own width recovers the
/// byte string.
pub proof fn lemma_le_bytes_of_value(s: Seq<u8>)
    ensures
        le_bytes(le_value(s), s.len()) =~= s,
    decreases s.len(),
{
    if s.len() > 0 {
        let v = le_value(s);
        let w = le_value(s.drop_first());
        assert(v == s[0] + 256 * w);
        assert(v % 256 == s[0] && v / 256 == w) by {
            assert(v == 256 * w + s[0]);
        }
        lemma_le_bytes_of_value(s.drop_first());
        assert(le_bytes(v, s.len()) =~= seq![(v % 256) as u8] + le_bytes(w, (s.len() - 1) as nat));
    }
}

/// Appends the `n` little-endian bytes of `x` to `out`.
pub fn push_le(out: &mut Vec<u8>, x: u64, n: usize)
    ensures
        final(out)@ == old(out)@ + le_bytes(x as nat, n as nat),
        final(out)@.len() == old(out)@.len() + n,
{
    let mut m: u64 = x;
    let mut i: usize = 0;
    while i < n
        invariant
            i <= n,
            out@ + le_bytes(m as nat, (n - i) as nat) =~= old(out)@ + le_bytes(
                x as nat,
                n as nat,
            ),
        decreases n - i,
    {
        let ghost pre = m as nat;
        out.push((m % 256) as u8);
        m = m / 256;
        i = i + 1;
        proof {
            assert(le_bytes(pre, (n - i + 1) as nat) =~= seq![(pre % 256) as u8] + le_bytes(
                pre / 256,
                (n - i) as nat,
            ));
        }
    }
    proof {
        assert(out@ =~= old(out)@ + le_bytes(x as nat, n as nat));
        lemma_le_bytes_len(x as nat, n as nat);
    }
}

/// Reads the value of the `n`-byte little-endian field of `b` starting at
/// `off`.
pub fn read_le(b: &Vec<u8>, off: usize, n: usize) -> (x: u64)
    requires
        off + n <= b@.len(),
        n <= 8,
    ensures
        x as nat == le_value(b@.subrange(off as int, off + n)),
{
    let blen: usize = b.len();
    let mut val: u64 = 0;
    let mut k: usize = n;
    while k > 0
        invariant
            off + n <= b@.len(),
            b@.len() == blen,
            n <= 8,
            k <= n,
            val as nat == le_value(b@.subrange(off + k, off + n)),
        decreases k,
    {
        proof {
            lemma_le_value_bound(b@.subrange(off + k, off + n));
            lemma_pow256_mono((n - k) as nat, 7);
            assert(pow256(7) == 0x100000000000000) by {
                reveal_with_fuel(pow256, 8);
            }
        }
        val = val * 256 + (b[off + k - 1] as u64);
        k = k - 1;
        proof {
            let s = b@.subrange(off + k, off + n);
            assert(s.drop_first() =~= b@.subrange(off + k + 1, off + n));
        }
    }
    proof {
        assert(b@.subrange(off as int, off + n) =~= b@.subrange(off + 0, off + n));
    }
    val
}

/// Appends a copy of `src` to `out`.
pub fn push_bytes(out: &mut Vec<u8>, src: &Vec<u8>)
    ensures
        final(out)@ == old(out)@ + src@,
        final(out)@.len() == old(out)@.len() + src@.len(),
{
    let mut i: usize = 0;
    while i < src.len()
        invariant
            i <= src@.len(),
            out@ =~= old(out)@ + src@.subrange(0, i as int),
        decreases src@.len() - i,
    {
        out.push(src[i]);
        i = i + 1;
        proof {
            assert(out@ =~= old(out)@ + src@.subrange(0, i as int));
        }
    }
    proof {
        assert(src@.subrange(0, src@.len() as int) =~= src@);
        assert(out@ =~= old(out)@ + src@);
    }
}

/// Copies the `n` bytes of `b` starting at `off` into a fresh vector.
pub fn copy_range(b: &Vec<u8>, off: usize, n: usize) -> (r: Vec<u8>)
    requires
        off + n <= b@.len(),
    ensures
        r@ == b@.subrange(off as int, off + n),
{
    let blen: usize = b.len();
    let mut out: Vec<u8> = Vec::new();
    let mut i: usize = 0;
    while i < n
        invariant
            off + n <= b@.len(),
            b@.len() == blen,
            i <= n,
            out@ =~= b@.subrange(off as int, off + i),
        decreases n - i,
    {
        out.push(b[off + i]);
        i = i + 1;
        proof {
            assert(out@ =~= b@.subrange(off as int, off + i));
        }
    }
    proof {
        assert(out@ =~= b@.subrange(off as int, off + n));
    }
    out
}

/// A vector of `n` zero bytes.
pub fn zero_bytes(n: usize) -> (r: Vec<u8>)
    ensures
        r@ == Seq::new(n as nat, |i: int| 0u8),
{
    let mut out: Vec<u8> = Vec::new();
    let mut i: usize = 0;
    while i < n
        invariant
            i <= n,
            out@ =~= Seq::new(i as nat, |j: int| 0u8),
        decreases n - i,
    {
        out.push(0u8);
        i = i + 1;
        proof {
            assert(out@ =~= Seq::new(i as nat, |j: int| 0u8));
        }
    }
    out
}

/// The mathematical content of a status record.
#[verifier::ext_equal]
pub ghost struct LoopInfoView {
    pub lo_device: u64,
    pub lo_inode: u64,
    pub lo_rdevice: u64,
    pub lo_offset: u64,
    pub lo_sizelimit: u64,
    pub lo_number: u32,
    pub lo_encrypt_type: u32,
    pub lo_encrypt_key_size: u32,
    pub lo_flags: u32,
    pub lo_file_name: Seq<u8>,
    pub lo_crypt_name: Seq<u8>,
    pub lo_encrypt_key: Seq<u8>,
    pub lo_init: Seq<u64>,
}

impl LoopInfoView {
    /// The fixed-width fields have their fixed widths.
    pub open spec fn wf(self) -> bool {
        &&& self.lo_file_name.len() == 64
        &&& self.lo_crypt_name.len() == 64
        &&& self.lo_encrypt_key.len() == 32
        &&& self.lo_init.len() == 2
    }
}

/// The status information of a loop device (64-bit version).
///
/// This record mirrors the kernel's 64-bit loop status structure field for
/// field. `lo_file_name` and `lo_crypt_name` are fixed 64-byte null-padded
/// fields, `lo_encrypt_key` a fixed 32-byte field, and `lo_init` two reserved
/// 64-bit words; the well-formedness predicate `wf` pins those widths.
#[derive(Clone, Debug)]
pub struct LoopInfo64 {
    pub lo_device: u64,
    pub lo_inode: u64,
    pub lo_rdevice: u64,
    pub lo_offset: u64,
    pub lo_sizelimit: u64,
    pub lo_number: u32,
    pub lo_encrypt_type: u32,
    pub lo_encrypt_key_size: u32,
    pub lo_flags: u32,
    pub lo_file_name: Vec<u8>,
    pub lo_crypt_name: Vec<u8>,
    pub lo_encrypt_key: Vec<u8>,
    pub lo_init: Vec<u64>,
}

impl View for LoopInfo64 {
    type V = LoopInfoView;

    open spec fn view(&self) -> LoopInfoView {
        LoopInfoView {
            lo_device: self.lo_device,
            lo_inode: self.lo_inode,
            lo_rdevice: self.lo_rdevice,
            lo_offset: self.lo_offset,
            lo_sizelimit: self.lo_sizelimit,
            lo_number: self.lo_number,
            lo_encrypt_type: self.lo_encrypt_type,
            lo_encrypt_key_size: self.lo_encrypt_key_size,
            lo_flags: self.lo_flags,
            lo_file_name: self.lo_file_name@,
            lo_crypt_name: self.lo_crypt_name@,
            lo_encrypt_key: self.lo_encrypt_key@,
            lo_init: self.lo_init@,
        }
    }
}

/// The all-zero record: every word zero, every byte field null-filled.
pub open spec fn spec_zero_info() -> LoopInfoView {
    LoopInfoView {
        lo_device: 0,
        lo_inode: 0,
        lo_rdevice: 0,
        lo_offset: 0,
        lo_sizelimit: 0,
        lo_number: 0,
        lo_encrypt_type: 0,
        lo_encrypt_key_size: 0,
        lo_flags: 0,
        lo_file_name: Seq::new(64, |i: int| 0u8),
        lo_crypt_name: Seq::new(64, |i: int| 0u8),
        lo_encrypt_key: Seq::new(32, |i: int| 0u8),
        lo_init: seq![0u64, 0u64],
    }
}

impl Default for LoopInfo64 {
    /// The zero-filled record a status query starts from.
    fn default() -> (r: Self)
        ensures
            r@ == spec_zero_info(),
            r@.wf(),
    {
        let mut lo_init: Vec<u64> = Vec::new();
        lo_init.push(0u64);
        lo_init.push(0u64);
        let r = LoopInfo64 {
            lo_device: 0,
            lo_inode: 0,
            lo_rdevice: 0,
            lo_offset: 0,
            lo_sizelimit: 0,
            lo_number: 0,
            lo_encrypt_type: 0,
            lo_encrypt_key_size: 0,
            lo_flags: 0,
            lo_file_name: zero_bytes(64),
            lo_crypt_name: zero_bytes(64),
            lo_encrypt_key: zero_bytes(32),
            lo_init,
        };
        proof {
            assert(r@.lo_init =~= spec_zero_info().lo_init);
            assert(r@ =~= spec_zero_info());
        }
        r
    }
}

/// The wire format of a status record: each field in order, words
/// little-endian.
pub open spec fn encode_bytes(v: LoopInfoView) -> Seq<u8> {
    le_bytes(v.lo_device as nat, 8) + le_bytes(v.lo_inode as nat, 8) + le_bytes(
        v.lo_rdevice as nat,
        8,
    ) + le_bytes(v.lo_offset as nat, 8) + le_bytes(v.lo_sizelimit as nat, 8) + le_bytes(
        v.lo_number as nat,
        4,
    ) + le_bytes(v.lo_encrypt_type as nat, 4) + le_bytes(v.lo_encrypt_key_size as nat, 4)
        + le_bytes(v.lo_flags as nat, 4) + v.lo_file_name + v.lo_crypt_name + v.lo_encrypt_key
        + le_bytes(v.lo_init[0] as nat, 8) + le_bytes(v.lo_init[1] as nat, 8)
}

/// The record a 232-byte wire image describes.
pub open spec fn decode_bytes(b: Seq<u8>) -> LoopInfoView {
    LoopInfoView {
        lo_device: le_value(b.subrange(0, 8)) as u64,
        lo_inode: le_value(b.subrange(8, 16)) as u64,
        lo_rdevice: le_value(b.subrange(16, 24)) as u64,
        lo_offset: le_value(b.subrange(24, 32)) as u64,
        lo_sizelimit: le_value(b.subrange(32, 40)) as u64,
        lo_number: le_value(b.subrange(40, 44)) as u32,
        lo_encrypt_type: le_value(b.subrange(44, 48)) as u32,
        lo_encrypt_key_size: le_value(b.subrange(48, 52)) as u32,
        lo_flags: le_value(b.subrange(52, 56)) as u32,
        lo_file_name: b.subrange(56, 120),
        lo_crypt_name: b.subrange(120, 184),
        lo_encrypt_key: b.subrange(184, 216),
        lo_init: seq![
            le_value(b.subrange(216, 224)) as u64,
            le_value(b.subrange(224, 232)) as u64,
        ],
    }
}

impl LoopInfo64 {
    /// The fixed-width fields have their fixed widths.
    pub open spec fn wf(&self) -> bool {
        self@.wf()
    }

    /// Encodes the record into its 232-byte wire image.
    pub fn encode(&self) -> (r: Vec<u8>)
        requires
            self.wf(),
        ensures
            r@ == encode_bytes(self@),
            r@.len() == 232,
    {
        let mut out: Vec<u8> = Vec::new();
        push_le(&mut out, self.lo_device, 8);
        push_le(&mut out, self.lo_inode, 8);
        push_le(&mut out, self.lo_rdevice, 8);
        push_le(&mut out, self.lo_offset, 8);
        push_le(&mut out, self.lo_sizelimit, 8);
        push_le(&mut out, self.lo_number as u64, 4);
        push_le(&mut out, self.lo_encrypt_type as u64, 4);
        push_le(&mut out, self.lo_encrypt_key_size as u64, 4);
        push_le(&mut out, self.lo_flags as u64, 4);
        push_bytes(&mut out, &self.lo_file_name);
        push_bytes(&mut out, &self.lo_crypt_name);
        push_bytes(&mut out, &self.lo_encrypt_key);
        push_le(&mut out, self.lo_init[0], 8);
        push_le(&mut out, self.lo_init[1], 8);
        proof {
            assert(out@ =~= encode_bytes(self@));
        }
        out
    }

    /// Decodes a 232-byte wire image into a record.
    pub fn decode(b: &Vec<u8>) -> (r: LoopInfo64)
        requires
            b@.len() == 232,
        ensures
            r@ == decode_bytes(b@),
            r.wf(),
    {
        proof {
            assert(pow256(4) == 0x100000000) by {
                reveal_with_fuel(pow256, 5);
            }
            lemma_le_value_bound(b@.subrange(40, 44));
            lemma_le_value_bound(b@.subrange(44, 48));
            lemma_le_value_bound(b@.subrange(48, 52));
            lemma_le_value_bound(b@.subrange(52, 56));
        }
        let lo_number = read_le(b, 40, 4);
        let lo_encrypt_type = read_le(b, 44, 4);
        let lo_encrypt_key_size = read_le(b, 48, 4);
        let lo_flags = read_le(b, 52, 4);
        let mut lo_init: Vec<u64> = Vec::new();
        lo_init.push(read_le(b, 216, 8));
        lo_init.push(read_le(b, 224, 8));
        let r = LoopInfo64 {
            lo_device: read_le(b, 0, 8),
            lo_inode: read_le(b, 8, 8),
            lo_rdevice: read_le(b, 16, 8),
            lo_offset: read_le(b, 24, 8),
            lo_sizelimit: read_le(b, 32, 8),
            lo_number: lo_number as u32,
            lo_encrypt_type: lo_encrypt_type as u32,
            lo_encrypt_key_size: lo_encrypt_key_size as u32,
            lo_flags: lo_flags as u32,
            lo_file_name: copy_range(b, 56, 64),
            lo_crypt_name: copy_range(b, 120, 64),
            lo_encrypt_key: copy_range(b, 184, 32),
            lo_init,
        };
        proof {
            assert(r@.lo_init =~= decode_bytes(b@).lo_init);
            assert(r@ =~= decode_bytes(b@));
        }
        r
    }
}

/// Decoding an encoded record recovers the record: the layout loses nothing.
pub proof fn lemma_decode_encode(v: LoopInfoView)
    requires
        v.wf(),
    ensures
        decode_bytes(encode_bytes(v)) == v,
{
    let e = encode_bytes(v);
    lemma_le_bytes_len(v.lo_device as nat, 8);
    lemma_le_bytes_len(v.lo_inode as nat, 8);
    lemma_le_bytes_len(v.lo_rdevice as nat, 8);
    lemma_le_bytes_len(v.lo_offset as nat, 8);
    lemma_le_bytes_len(v.lo_sizelimit as nat, 8);
    lemma_le_bytes_len(v.lo_number as nat, 4);
    lemma_le_bytes_len(v.lo_encrypt_type as nat, 4);
    lemma_le_bytes_len(v.lo_encrypt_key_size as nat, 4);
    lemma_le_bytes_len(v.lo_flags as nat, 4);
    lemma_le_bytes_len(v.lo_init[0] as nat, 8);
    lemma_le_bytes_len(v.lo_init[1] as nat, 8);
    assert(pow256(8) == 0x10000000000000000) by {
        reveal_with_fuel(pow256, 9);
    }
    assert(pow256(4) == 0x100000000) by {
        reveal_with_fuel(pow256, 5);
    }
    assert(e.subrange(0, 8) =~= le_bytes(v.lo_device as nat, 8));
    assert(e.subrange(8, 16) =~= le_bytes(v.lo_inode as nat, 8));
    assert(e.subrange(16, 24) =~= le_bytes(v.lo_rdevice as nat, 8));
    assert(e.subrange(24, 32) =~= le_bytes(v.lo_offset as nat, 8));
    assert(e.subrange(32, 40) =~= le_bytes(v.lo_sizelimit as nat, 8));
    assert(e.subrange(40, 44) =~= le_bytes(v.lo_number as nat, 4));
    assert(e.subrange(44, 48) =~= le_bytes(v.lo_encrypt_type as nat, 4));
    assert(e.subrange(48, 52) =~= le_bytes(v.lo_encrypt_key_size as nat, 4));
    assert(e.subrange(52, 56) =~= le_bytes(v.lo_flags as nat, 4));
    assert(e.subrange(56, 120) =~= v.lo_file_name);
    assert(e.subrange(120, 184) =~= v.lo_crypt_name);
    assert(e.subrange(184, 216) =~= v.lo_encrypt_key);
    assert(e.subrange(216, 224) =~= le_bytes(v.lo_init[0] as nat, 8));
    assert(e.subrange(224, 232) =~= le_bytes(v.lo_init[1] as nat, 8));
    lemma_le_round_trip(v.lo_device as nat, 8);
    lemma_le_round_trip(v.lo_inode as nat, 8);
    lemma_le_round_trip(v.lo_rdevice as nat, 8);
    lemma_le_round_trip(v.lo_offset as nat, 8);
    lemma_le_round_trip(v.lo_sizelimit as nat, 8);
    lemma_le_round_trip(v.lo_number as nat, 4);
    lemma_le_round_trip(v.lo_encrypt_type as nat, 4);
    lemma_le_round_trip(v.lo_encrypt_key_size as nat, 4);
    lemma_le_round_trip(v.lo_flags as nat, 4);
    lemma_le_round_trip(v.lo_init[0] as nat, 8);
    lemma_le_round_trip(v.lo_init[1] as nat, 8);
    assert(decode_bytes(e).lo_init =~= v.lo_init);
    assert(decode_bytes(e) =~= v);
}

/// Encoding a decoded wire image recovers the image byte for byte: the
/// layout adds nothing.
pub proof fn lemma_encode_decode(b: Seq<u8>)
    requires
        b.len() == 232,
    ensures
        encode_bytes(decode_bytes(b)) == b,
{
    let v = decode_bytes(b);
    lemma_le_value_bound(b.subrange(0, 8));
    lemma_le_value_bound(b.subrange(8, 16));
    lemma_le_value_bound(b.subrange(16, 24));
    lemma_le_value_bound(b.subrange(24, 32));
    lemma_le_value_bound(b.subrange(32, 40));
    lemma_le_value_bound(b.subrange(40, 44));
    lemma_le_value_bound(b.subrange(44, 48));
    lemma_le_value_bound(b.subrange(48, 52));
    lemma_le_value_bound(b.subrange(52, 56));
    lemma_le_value_bound(b.subrange(216, 224));
    lemma_le_value_bound(b.subrange(224, 232));
    assert(pow256(8) == 0x10000000000000000) by {
        reveal_with_fuel(pow256, 9);
    }
    assert(pow256(4) == 0x100000000) by {
        reveal_with_fuel(pow256, 5);
    }
    lemma_le_bytes_of_value(b.subrange(0, 8));
    lemma_le_bytes_of_value(b.subrange(8, 16));
    lemma_le_bytes_of_value(b.subrange(16, 24));
    lemma_le_bytes_of_value(b.subrange(24, 32));
    lemma_le_bytes_of_value(b.subrange(32, 40));
    lemma_le_bytes_of_value(b.subrange(40, 44));
    lemma_le_bytes_of_value(b.subrange(44, 48));
    lemma_le_bytes_of_value(b.subrange(48, 52));
    lemma_le_bytes_of_value(b.subrange(52, 56));
    lemma_le_bytes_of_value(b.subrange(216, 224));
    lemma_le_bytes_of_value(b.subrange(224, 232));
    assert(encode_bytes(v) =~= b);
}

/// The backing path as the kernel stores it in the name field: at most 63
/// bytes of the path, null-padded to 64 bytes.
pub open spec fn spec_name_field(s: Seq<u8>) -> Seq<u8> {
    let keep = if s.len() > 63 {
        s.subrange(0, 63)
    } else {
        s
    };
    keep + Seq::new((64 - keep.len()) as nat, |i: int| 0u8)
}

/// Encodes a backing file path as the kernel's fixed 64-byte name field:
/// truncated to 63 bytes and null-padded.
pub fn name_field(path: &str) -> (r: Vec<u8>)
    ensures
        r@ == spec_name_field(path.spec_bytes()),
        r@.len() == 64,
{
    let bytes = path.as_bytes_vec();
    let ghost s = path.spec_bytes();
    let ghost keep = if s.len() > 63 { s.subrange(0, 63) } else { s };
    let limit: usize = if bytes.len() > 63 {
        63
    } else {
        bytes.len()
    };
    let mut out: Vec<u8> = Vec::new();
    let mut i: usize = 0;
    while i < limit
        invariant
            bytes@ == s,
            limit <= bytes@.len(),
            limit as int == keep.len(),
            keep =~= s.subrange(0, limit as int),
            i <= limit,
            out@ =~= s.subrange(0, i as int),
        decreases limit - i,
    {
        out.push(bytes[i]);
        i = i + 1;
        proof {
            assert(out@ =~= s.subrange(0, i as int));
        }
    }
    proof {
        assert(out@ =~= keep);
    }
    while out.len() < 64
        invariant
            keep.len() <= out@.len() <= 64,
            keep.len() <= 63,
            out@ =~= spec_name_field(s).subrange(0, out@.len() as int),
            keep =~= if s.len() > 63 { s.subrange(0, 63) } else { s },
        decreases 64 - out@.len(),
    {
        out.push(0u8);
        proof {
            assert(out@ =~= spec_name_field(s).subrange(0, out@.len() as int));
        }
    }
    proof {
        assert(spec_name_field(s).len() == 64);
        assert(out@ =~= spec_name_field(s));
    }
    out
}

/// Whether two byte vectors hold the same bytes.
pub fn bytes_eq(a: &Vec<u8>, b: &Vec<u8>) -> (r: bool)
    ensures
        r == (a@ == b@),
{
    if a.len() != b.len() {
        proof {
            assert(a@ != b@);
        }
        return false;
    }
    let mut i: usize = 0;
    while i < a.len()
        invariant
            a@.len() == b@.len(),
            i <= a@.len(),
            forall|j: int| 0 <= j < i ==> a@[j] == b@[j],
        decreases a@.len() - i,
    {
        if a[i] != b[i] {
            proof {
                assert(a@ != b@);
            }
            return false;
        }
        i = i + 1;
    }
    proof {
        assert(a@ =~= b@);
    }
    true
}

impl LoopInfo64 {
    /// Whether the record's name field holds exactly the given backing path,
    /// truncated to 63 bytes and null-padded to the fixed width.
    pub fn file_name_matches(&self, path: &str) -> (r: bool)
        ensures
            r == (self@.lo_file_name == spec_name_field(path.spec_bytes())),
    {
        let expected = name_field(path);
        bytes_eq(&self.lo_file_name, &expected)
    }
}

} // verus!
