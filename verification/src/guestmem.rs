//! The guest-memory marshalling layer of the host-ABI flavour, over an
//! explicit byte image of the guest's linear memory.
//!
//! A guest value is a non-null offset into linear memory; the four bytes
//! immediately below it hold the object's byte length, little-endian.
//! Reading and writing the memory itself happens outside the library,
//! which works on byte snapshots.

use vstd::prelude::*;

use crate::error::Error;
use crate::utf16::{
    bytes_to_units, decode_utf16_units, encode_utf16_str, lemma_units_bytes_round_trip,
    lemma_utf16_round_trip, units_to_bytes, utf16_decode, utf16_encode,
};

verus! {

/// The little-endian 32-bit value of the four bytes at `i`.
pub open spec fn le32_at(mem: Seq<u8>, i: int) -> int {
    mem[i] + mem[i + 1] * 0x100 + mem[i + 2] * 0x1_0000 + mem[i + 3] * 0x100_0000
}

/// Whether `ptr` points at a well-formed object: at least 4, and the
/// length prefix below it stays within the memory.
pub open spec fn obj_ok(mem: Seq<u8>, ptr: int) -> bool {
    4 <= ptr && ptr <= mem.len() && ptr + le32_at(mem, ptr - 4) <= mem.len()
}

/// The object's payload bytes.
pub open spec fn obj_bytes(mem: Seq<u8>, ptr: int) -> Seq<u8> {
    mem.subrange(ptr, ptr + le32_at(mem, ptr - 4))
}

/// Reads the length prefix below `ptr`; fails with a trap error exactly
/// when the pointer or the implied range is out of bounds.
pub fn object_len(mem: &[u8], ptr: u32) -> (r: Result<usize, Error>)
    ensures
        r is Ok <==> obj_ok(mem@, ptr as int),
        r matches Ok(n) ==> n == le32_at(mem@, ptr as int - 4),
        r matches Err(e) ==> e is GuestTrap,
{
    let p = ptr as usize;
    if p < 4 || p > mem.len() {
        return Err(Error::GuestTrap(String::from_str("invalid allocation pointer")));
    }
    let b0 = mem[p - 4] as usize;
    let b1 = mem[p - 3] as usize;
    let b2 = mem[p - 2] as usize;
    let b3 = mem[p - 1] as usize;
    let n: usize = b0 + b1 * 0x100 + b2 * 0x1_0000 + b3 * 0x100_0000;
    if n > mem.len() - p {
        return Err(Error::GuestTrap(String::from_str("object extends past end of memory")));
    }
    Ok(n)
}

/// Copies an object's payload out of the memory image; fails with a trap
/// error exactly when the pointer is invalid.
pub fn decode_slice(mem: &[u8], ptr: u32) -> (r: Result<Vec<u8>, Error>)
    ensures
        r is Ok <==> obj_ok(mem@, ptr as int),
        r matches Ok(b) ==> b@ == obj_bytes(mem@, ptr as int),
        r matches Err(e) ==> e is GuestTrap,
{
    let n = match object_len(mem, ptr) {
        Ok(n) => n,
        Err(e) => {
            return Err(e);
        },
    };
    let p = ptr as usize;
    let total: usize = mem.len();
    let mut out: Vec<u8> = Vec::new();
    let mut i: usize = 0;
    while i < n
        invariant
            obj_ok(mem@, p as int),
            p == ptr as usize,
            n == le32_at(mem@, p as int - 4),
            total == mem@.len(),
            p + n <= total,
            i <= n,
            out@.len() == i,
            forall|j: int| 0 <= j < i ==> out@[j] == mem@[p + j],
        decreases n - i,
    {
        out.push(mem[p + i]);
        i = i + 1;
    }
    proof {
        assert(out@ =~= obj_bytes(mem@, ptr as int));
    }
    Ok(out)
}

/// What a completed payload write leaves behind: only the object's bytes
/// changed, and they now hold `data`.
pub open spec fn object_written(m0: Seq<u8>, m1: Seq<u8>, ptr: int, data: Seq<u8>) -> bool {
    &&& m1.len() == m0.len()
    &&& (forall|j: int| 0 <= j < ptr ==> m1[j] == m0[j])
    &&& (forall|j: int| 0 <= j < data.len() ==> m1[ptr + j] == data[j])
    &&& (forall|j: int| ptr + data.len() <= j < m0.len() ==> m1[j] == m0[j])
}

/// Writes a payload over an object of exactly the payload's length, as
/// the allocate-write-retain convention requires; fails with a trap error
/// when the pointer is invalid or the object's length differs.
pub fn write_object(mem: &mut Vec<u8>, ptr: u32, data: &[u8]) -> (r: Result<(), Error>)
    ensures
        r is Ok <==> (obj_ok(old(mem)@, ptr as int) && le32_at(old(mem)@, ptr as int - 4)
            == data@.len()),
        r is Ok ==> object_written(old(mem)@, final(mem)@, ptr as int, data@),
        r is Err ==> final(mem)@ == old(mem)@,
        r matches Err(e) ==> e is GuestTrap,
{
    let n = match object_len(mem.as_slice(), ptr) {
        Ok(n) => n,
        Err(e) => {
            return Err(e);
        },
    };
    if n != data.len() {
        return Err(Error::GuestTrap(String::from_str("object length does not match payload")));
    }
    let p = ptr as usize;
    let total: usize = mem.len();
    let mut i: usize = 0;
    while i < n
        invariant
            p == ptr as usize,
            n == data@.len(),
            total == mem@.len(),
            p + n <= total,
            mem@.len() == old(mem)@.len(),
            i <= n,
            forall|j: int| 0 <= j < p ==> mem@[j] == old(mem)@[j],
            forall|j: int| 0 <= j < i ==> mem@[p + j] == data@[j],
            forall|j: int| p + i <= j < mem@.len() ==> mem@[j] == old(mem)@[j],
        decreases n - i,
    {
        mem.set(p + i, data[i]);
        i = i + 1;
    }
    Ok(())
}

/// Writing a payload over a matching object and reading it back gives
/// the payload: the byte half of the host-ABI value round trip.
pub proof fn lemma_bytes_round_trip(m0: Seq<u8>, m1: Seq<u8>, ptr: int, data: Seq<u8>)
    requires
        obj_ok(m0, ptr),
        le32_at(m0, ptr - 4) == data.len(),
        object_written(m0, m1, ptr, data),
    ensures
        obj_ok(m1, ptr),
        obj_bytes(m1, ptr) == data,
{
    assert(le32_at(m1, ptr - 4) == le32_at(m0, ptr - 4));
    assert(obj_bytes(m1, ptr) =~= data);
}

/// The string a guest object denotes: its bytes as little-endian UTF-16
/// code units, decoded lossily.
pub open spec fn str_of_obj(mem: Seq<u8>, ptr: int) -> Seq<char> {
    utf16_decode(bytes_to_units(obj_bytes(mem, ptr)))
}

/// Reads a guest string out of the memory image; fails with a trap error
/// exactly when the pointer is invalid.
pub fn decode_str(mem: &[u8], ptr: u32) -> (r: Result<String, Error>)
    ensures
        r is Ok <==> obj_ok(mem@, ptr as int),
        r matches Ok(s) ==> s@ == str_of_obj(mem@, ptr as int),
        r matches Err(e) ==> e is GuestTrap,
{
    let bytes = match decode_slice(mem, ptr) {
        Ok(b) => b,
        Err(e) => {
            return Err(e);
        },
    };
    let total = bytes.len();
    let n = total / 2;
    let mut units: Vec<u16> = Vec::new();
    let mut i: usize = 0;
    while i < n
        invariant
            total == bytes@.len(),
            n == bytes@.len() / 2,
            i <= n,
            units@.len() == i,
            forall|j: int| 0 <= j < i ==> units@[j] == bytes_to_units(bytes@)[j],
        decreases n - i,
    {
        let lo = bytes[2 * i] as u16;
        let hi = bytes[2 * i + 1] as u16;
        units.push(lo + hi * 0x100);
        i = i + 1;
    }
    proof {
        assert(units@ =~= bytes_to_units(bytes@));
    }
    Ok(decode_utf16_units(units.as_slice()))
}

/// The byte payload of a host string handed to the guest: its UTF-16
/// code units, little-endian.
pub fn string_payload(s: &str) -> (r: Vec<u8>)
    ensures
        r@ == units_to_bytes(utf16_encode(s@)),
{
    let units = encode_utf16_str(s);
    let n = units.len();
    let mut out: Vec<u8> = Vec::new();
    let mut i: usize = 0;
    while i < n
        invariant
            n == units@.len(),
            i <= n,
            out@.len() == 2 * i,
            forall|j: int| 0 <= j < 2 * i ==> out@[j] == units_to_bytes(units@)[j],
        decreases n - i,
    {
        let u = units[i];
        out.push((u % 0x100) as u8);
        out.push((u / 0x100) as u8);
        i = i + 1;
    }
    proof {
        assert(out@ =~= units_to_bytes(units@));
    }
    out
}

/// Writing a string's payload over a matching object and reading it back
/// gives the string: the string half of the host-ABI value round trip.
/// Nothing is lost to the lossy decoding, since encoding a string never
/// produces lone surrogates.
pub proof fn lemma_string_round_trip(m0: Seq<u8>, m1: Seq<u8>, ptr: int, s: Seq<char>)
    requires
        obj_ok(m0, ptr),
        le32_at(m0, ptr - 4) == utf16_encode(s).len() * 2,
        object_written(m0, m1, ptr, units_to_bytes(utf16_encode(s))),
    ensures
        obj_ok(m1, ptr),
        str_of_obj(m1, ptr) == s,
{
    lemma_units_bytes_round_trip(utf16_encode(s));
    lemma_bytes_round_trip(m0, m1, ptr, units_to_bytes(utf16_encode(s)));
    lemma_utf16_round_trip(s);
}

} // verus!
