//! The guest memory buffer protocol.
//!
//! Every variable-length value crossing the host/guest boundary is passed
//! as a pointer into guest linear memory; the 4 bytes immediately before
//! the pointer hold the little-endian unsigned 32-bit length of the value.
//! Declared lengths are checked against a per-call-site maximum, and a
//! length that exceeds it is an error, never a silent truncation.
//!
//! The functions here operate on linear memory modeled as a byte vector;
//! the unverified interpreter shell performs the same reads and writes on
//! the real guest memory using these functions' contracts as its protocol.

use vstd::prelude::*;

verus! {

/// The maximum length of data that can be passed to or from the guest.
pub const BUFFER_MAX_LEN: u32 = 10_000_000;

/// The maximum length of console log messages, in UTF-16 code units.
pub const CONSOLE_LOG_MAX_LEN: u32 = 10_000;

/// Ways a buffer read from guest memory can fail.
#[derive(Debug, Clone, Copy, PartialEq, Eq, Structural)]
pub enum BufferError {
    /// The declared length exceeds the maximum allowed at this call site.
    TooLong,
    /// The buffer, or its length prefix, lies outside linear memory.
    OutOfBounds,
}

/// Compares two byte strings.
pub fn bytes_eq(a: &Vec<u8>, b: &Vec<u8>) -> (r: bool)
    ensures
        r == (a@ == b@),
{
    if a.len() != b.len() {
        proof {
            assert(a@ != b@);
        }
        return false;
    }
    let len = a.len();
    let mut i: usize = 0;
    while i < len
        invariant
            len == a@.len() == b@.len(),
            i <= len,
            forall|j: int| 0 <= j < i ==> a@[j] == b@[j],
        decreases len - i,
    {
        if a[i] != b[i] {
            return false;
        }
        i = i + 1;
    }
    proof {
        assert(a@ =~= b@);
    }
    true
}

/// The number encoded by four little-endian bytes.
pub open spec fn le32(b: Seq<u8>) -> int
    recommends
        b.len() == 4,
{
    b[0] + 256 * (b[1] + 256 * (b[2] + 256 * b[3]))
}

/// The four little-endian bytes encoding a number below 2^32.
pub open spec fn le32_bytes(n: int) -> Seq<u8>
    recommends
        0 <= n < 0x1_0000_0000,
{
    seq![
        (n % 256) as u8,
        ((n / 256) % 256) as u8,
        ((n / 65536) % 256) as u8,
        ((n / 16777216) % 256) as u8,
    ]
}

/// Four little-endian bytes decode to the number they were made from.
pub proof fn lemma_le32_round_trip(n: int)
    requires
        0 <= n < 0x1_0000_0000,
    ensures
        le32(le32_bytes(n)) == n,
{
    assert(le32(le32_bytes(n)) == n) by (nonlinear_arith)
        requires
            0 <= n < 0x1_0000_0000,
    ;
}

/// Decodes a little-endian 32-bit length from four bytes.
pub fn decode_len(b0: u8, b1: u8, b2: u8, b3: u8) -> (r: u32)
    ensures
        r == le32(seq![b0, b1, b2, b3]),
{
    b0 as u32 + 256 * (b1 as u32 + 256 * (b2 as u32 + 256 * (b3 as u32)))
}

/// Encodes a 32-bit length as four little-endian bytes.
pub fn encode_len(n: u32) -> (r: Vec<u8>)
    ensures
        r@ == le32_bytes(n as int),
{
    let mut r: Vec<u8> = Vec::new();
    r.push((n % 256) as u8);
    r.push(((n / 256) % 256) as u8);
    r.push(((n / 65536) % 256) as u8);
    r.push(((n / 16777216) % 256) as u8);
    proof {
        assert(r@ =~= le32_bytes(n as int));
    }
    r
}

/// Memory after `data` has been copied over the bytes starting at `ptr`.
pub open spec fn mem_written(mem: Seq<u8>, ptr: int, data: Seq<u8>) -> Seq<u8> {
    Seq::new(
        mem.len(),
        |i: int| if ptr <= i < ptr + data.len() { data[i - ptr] } else { mem[i] },
    )
}

/// Copies `data` into memory starting at `ptr`. The guest is trusted to
/// have made the destination large enough; a destination outside memory is
/// excluded here rather than trapped on.
pub fn write_bytes(mem: &mut Vec<u8>, ptr: usize, data: &Vec<u8>)
    requires
        ptr + data@.len() <= old(mem)@.len(),
    ensures
        final(mem)@ == mem_written(old(mem)@, ptr as int, data@),
{
    let mem_len: usize = mem.len();
    let mut k: usize = 0;
    while k < data.len()
        invariant
            ptr + data@.len() <= mem@.len(),
            mem@.len() == mem_len,
            k <= data@.len(),
            mem@.len() == old(mem)@.len(),
            forall|i: int|
                0 <= i < mem@.len() && !(ptr <= i < ptr + k) ==> mem@[i] == old(mem)@[i],
            forall|i: int| ptr <= i < ptr + k ==> mem@[i] == data@[i - ptr],
        decreases data@.len() - k,
    {
        mem[ptr + k] = data[k];
        k = k + 1;
    }
    proof {
        assert(mem@ =~= mem_written(old(mem)@, ptr as int, data@));
    }
}

/// Memory after a value has been written following the buffer protocol:
/// the value's bytes at `ptr`, its little-endian length in the four bytes
/// before `ptr`.
pub open spec fn mem_written_prefixed(mem: Seq<u8>, ptr: int, data: Seq<u8>) -> Seq<u8> {
    mem_written(mem_written(mem, ptr - 4, le32_bytes(data.len() as int)), ptr, data)
}

/// Writes a value into memory following the buffer protocol.
pub fn write_prefixed(mem: &mut Vec<u8>, ptr: usize, data: &Vec<u8>)
    requires
        4 <= ptr,
        ptr + data@.len() <= old(mem)@.len(),
        data@.len() <= u32::MAX,
    ensures
        final(mem)@ == mem_written_prefixed(old(mem)@, ptr as int, data@),
{
    let prefix = encode_len(data.len() as u32);
    write_bytes(mem, ptr - 4, &prefix);
    write_bytes(mem, ptr, data);
}

/// The length declared by the four bytes before `ptr`.
pub open spec fn declared_len(mem: Seq<u8>, ptr: int) -> int {
    le32(mem.subrange(ptr - 4, ptr))
}

/// The buffer protocol's view of the value at `ptr`: its declared bytes,
/// or the error raised while reading them.
pub open spec fn read_buffer_s(mem: Seq<u8>, ptr: int, max_len: int) -> Result<Seq<u8>, BufferError>
    recommends
        4 <= ptr <= mem.len(),
{
    let len = declared_len(mem, ptr);
    if len > max_len {
        Err(BufferError::TooLong)
    } else if ptr + len > mem.len() {
        Err(BufferError::OutOfBounds)
    } else {
        Ok(mem.subrange(ptr, ptr + len))
    }
}

/// Reads a length-prefixed buffer from guest memory, refusing declared
/// lengths beyond `max_len`.
pub fn read_buffer(mem: &Vec<u8>, ptr: usize, max_len: u32) -> (r: Result<Vec<u8>, BufferError>)
    requires
        4 <= ptr <= mem@.len(),
    ensures
        r matches Ok(b) ==> read_buffer_s(mem@, ptr as int, max_len as int) matches Ok(s) && b@ == s,
        r matches Err(e) ==> read_buffer_s(mem@, ptr as int, max_len as int) matches Err(e2) && e == e2,
{
    let len = decode_len(mem[ptr - 4], mem[ptr - 3], mem[ptr - 2], mem[ptr - 1]);
    proof {
        assert(seq![mem@[ptr - 4], mem@[ptr - 3], mem@[ptr - 2], mem@[ptr - 1]]
            =~= mem@.subrange(ptr - 4, ptr as int));
    }
    if len > max_len {
        return Err(BufferError::TooLong);
    }
    if len as usize > mem.len() - ptr {
        return Err(BufferError::OutOfBounds);
    }
    let len = len as usize;
    let mem_len: usize = mem.len();
    let mut bytes: Vec<u8> = Vec::new();
    let mut k: usize = 0;
    while k < len
        invariant
            ptr + len <= mem_len,
            mem@.len() == mem_len,
            k <= len,
            bytes@.len() == k,
            forall|i: int| 0 <= i < k ==> bytes@[i] == mem@[ptr + i],
        decreases len - k,
    {
        bytes.push(mem[ptr + k]);
        k = k + 1;
    }
    proof {
        assert(bytes@ =~= mem@.subrange(ptr as int, ptr + declared_len(mem@, ptr as int)));
    }
    Ok(bytes)
}

/// Bytes written through the buffer protocol read back unchanged: writing
/// a value of at most `max_len` bytes and reading it from the same pointer
/// with the same maximum yields exactly the bytes written.
pub proof fn lemma_buffer_round_trip(mem: Seq<u8>, ptr: int, data: Seq<u8>, max_len: int)
    requires
        4 <= ptr,
        ptr + data.len() <= mem.len(),
        data.len() <= max_len,
        data.len() <= u32::MAX,
    ensures
        read_buffer_s(mem_written_prefixed(mem, ptr, data), ptr, max_len) == Ok::<Seq<u8>, BufferError>(data),
{
    let written = mem_written_prefixed(mem, ptr, data);
    assert(written.subrange(ptr - 4, ptr) =~= le32_bytes(data.len() as int));
    lemma_le32_round_trip(data.len() as int);
    assert(declared_len(written, ptr) == data.len());
    assert(written.subrange(ptr, ptr + data.len()) =~= data);
}

} // verus!
