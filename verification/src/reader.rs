//! A bounded byte-buffer cursor with exactly specified primitive reads.
//!
//! Every primitive either returns the requested value and advances the cursor
//! by its exact byte width, or fails with `Truncated` and leaves the cursor
//! where it stood.  Multi-byte integers are little-endian.  A relative skip
//! past the end of the buffer is treated as truncation, since the buffer is
//! bounded and a later read there could never succeed.

use vstd::prelude::*;

verus! {

/// Why a decode failed.
#[derive(Clone, Copy, PartialEq, Eq, Structural, Debug)]
pub enum DecodeError {
    /// A primitive read or skip ran past the end of the buffer.
    Truncated,
    /// A field that must carry an identifier held the absence sentinel.
    AbsentRequiredId,
    /// A declared length was too small for the fixed header it must cover.
    BadLength,
}

/// `width` bytes are available at `pos`.
pub open spec fn fits(data: Seq<u8>, pos: int, width: int) -> bool {
    0 <= pos && pos + width <= data.len()
}

pub open spec fn byte_at(data: Seq<u8>, pos: int) -> int {
    data[pos] as int
}

/// Unsigned little-endian 16-bit value at `pos`.
pub open spec fn le16_at(data: Seq<u8>, pos: int) -> int {
    byte_at(data, pos) + 0x100 * byte_at(data, pos + 1)
}

/// Unsigned little-endian 32-bit value at `pos`.
pub open spec fn le32_at(data: Seq<u8>, pos: int) -> int {
    byte_at(data, pos)
        + 0x100 * byte_at(data, pos + 1)
        + 0x1_0000 * byte_at(data, pos + 2)
        + 0x100_0000 * byte_at(data, pos + 3)
}

/// Two's-complement reading of an 8-bit unsigned value.
pub open spec fn signed8(v: int) -> int {
    if v >= 0x80 { v - 0x100 } else { v }
}

/// Two's-complement reading of a 16-bit unsigned value.
pub open spec fn signed16(v: int) -> int {
    if v >= 0x8000 { v - 0x1_0000 } else { v }
}

/// Two's-complement reading of a 32-bit unsigned value.
pub open spec fn signed32(v: int) -> int {
    if v >= 0x8000_0000 { v - 0x1_0000_0000 } else { v }
}

/// The bytes of `s` before its first NUL, the whole of `s` if it has none.
/// Fixed-size and length-prefixed strings both decode to this.
pub open spec fn nul_trimmed(s: Seq<u8>) -> Seq<u8>
    decreases s.len(),
{
    if s.len() == 0 {
        Seq::empty()
    } else if s[0] == 0 {
        Seq::empty()
    } else {
        seq![s[0]] + nul_trimmed(s.subrange(1, s.len() as int))
    }
}

/// If the first NUL of `s` stands at `i` (or `s` has none and `i` is its
/// length), the trimmed string is exactly the first `i` bytes.
pub proof fn lemma_nul_trimmed_prefix(s: Seq<u8>, i: int)
    requires
        0 <= i <= s.len(),
        forall|j: int| 0 <= j < i ==> s[j] != 0,
        i == s.len() || s[i] == 0,
    ensures
        nul_trimmed(s) == s.subrange(0, i),
    decreases i,
{
    if i == 0 {
        assert(nul_trimmed(s) =~= s.subrange(0, 0));
    } else {
        let t = s.subrange(1, s.len() as int);
        lemma_nul_trimmed_prefix(t, i - 1);
        assert(seq![s[0]] + t.subrange(0, i - 1) =~= s.subrange(0, i));
    }
}

/// Shorthand for the successful outcome of a specification-level decoder:
/// the decoded value together with the cursor position after it.
pub open spec fn decoded<T>(v: T, next: int) -> Result<(T, int), DecodeError> {
    Ok((v, next))
}

/// Shorthand for the failing outcome of a specification-level decoder.
pub open spec fn failed<T>(e: DecodeError) -> Result<(T, int), DecodeError> {
    Err(e)
}

/// A cursor over an owned byte buffer.  `data()` never changes over the
/// reader's life; `cursor()` only moves forward, by the exact width of each
/// successful primitive read.
pub struct Reader {
    bytes: Vec<u8>,
    pos: usize,
}

impl Reader {
    /// The whole underlying buffer.
    pub closed spec fn data(&self) -> Seq<u8> {
        self.bytes@
    }

    /// The current read position.
    pub closed spec fn cursor(&self) -> int {
        self.pos as int
    }

    /// The cursor stands inside (or just past the end of) the buffer.
    pub open spec fn wf(&self) -> bool {
        self.cursor() <= self.data().len()
    }

    pub fn new(bytes: Vec<u8>) -> (r: Reader)
        ensures
            r.wf(),
            r.data() == bytes@,
            r.cursor() == 0,
    {
        Reader { bytes, pos: 0 }
    }

    /// The current read position, for callers that check consumption.
    pub fn position(&self) -> (p: usize)
        ensures
            p == self.cursor(),
    {
        self.pos
    }

    /// How many bytes are left between the cursor and the end of the buffer.
    pub fn remaining(&self) -> (n: usize)
        requires
            self.wf(),
        ensures
            n == self.data().len() - self.cursor(),
    {
        self.bytes.len() - self.pos
    }

    /// `n` more bytes are available.
    fn has(&self, n: usize) -> (b: bool)
        requires
            self.wf(),
        ensures
            b == fits(self.data(), self.cursor(), n as int),
            b ==> self.cursor() + n <= usize::MAX,
    {
        self.bytes.len() - self.pos >= n
    }

    pub fn read_u8(&mut self) -> (r: Result<u8, DecodeError>)
        requires
            old(self).wf(),
        ensures
            final(self).wf(),
            final(self).data() == old(self).data(),
            match r {
                Ok(v) => fits(old(self).data(), old(self).cursor(), 1)
                    && v as int == byte_at(old(self).data(), old(self).cursor())
                    && final(self).cursor() == old(self).cursor() + 1,
                Err(e) => e == DecodeError::Truncated
                    && !fits(old(self).data(), old(self).cursor(), 1)
                    && final(self).cursor() == old(self).cursor(),
            },
    {
        if self.has(1) {
            let v = self.bytes[self.pos];
            self.pos = self.pos + 1;
            Ok(v)
        } else {
            Err(DecodeError::Truncated)
        }
    }

    pub fn read_u16(&mut self) -> (r: Result<u16, DecodeError>)
        requires
            old(self).wf(),
        ensures
            final(self).wf(),
            final(self).data() == old(self).data(),
            match r {
                Ok(v) => fits(old(self).data(), old(self).cursor(), 2)
                    && v as int == le16_at(old(self).data(), old(self).cursor())
                    && final(self).cursor() == old(self).cursor() + 2,
                Err(e) => e == DecodeError::Truncated
                    && !fits(old(self).data(), old(self).cursor(), 2)
                    && final(self).cursor() == old(self).cursor(),
            },
    {
        if self.has(2) {
            let b0 = self.bytes[self.pos];
            let b1 = self.bytes[self.pos + 1];
            self.pos = self.pos + 2;
            Ok(b0 as u16 + 0x100 * (b1 as u16))
        } else {
            Err(DecodeError::Truncated)
        }
    }

    pub fn read_u32(&mut self) -> (r: Result<u32, DecodeError>)
        requires
            old(self).wf(),
        ensures
            final(self).wf(),
            final(self).data() == old(self).data(),
            match r {
                Ok(v) => fits(old(self).data(), old(self).cursor(), 4)
                    && v as int == le32_at(old(self).data(), old(self).cursor())
                    && final(self).cursor() == old(self).cursor() + 4,
                Err(e) => e == DecodeError::Truncated
                    && !fits(old(self).data(), old(self).cursor(), 4)
                    && final(self).cursor() == old(self).cursor(),
            },
    {
        if self.has(4) {
            let b0 = self.bytes[self.pos];
            let b1 = self.bytes[self.pos + 1];
            let b2 = self.bytes[self.pos + 2];
            let b3 = self.bytes[self.pos + 3];
            self.pos = self.pos + 4;
            Ok(b0 as u32 + 0x100 * (b1 as u32) + 0x1_0000 * (b2 as u32) + 0x100_0000 * (b3 as u32))
        } else {
            Err(DecodeError::Truncated)
        }
    }

    pub fn read_i8(&mut self) -> (r: Result<i8, DecodeError>)
        requires
            old(self).wf(),
        ensures
            final(self).wf(),
            final(self).data() == old(self).data(),
            match r {
                Ok(v) => fits(old(self).data(), old(self).cursor(), 1)
                    && v as int == signed8(byte_at(old(self).data(), old(self).cursor()))
                    && final(self).cursor() == old(self).cursor() + 1,
                Err(e) => e == DecodeError::Truncated
                    && !fits(old(self).data(), old(self).cursor(), 1)
                    && final(self).cursor() == old(self).cursor(),
            },
    {
        match self.read_u8() {
            Ok(b) => {
                let v: i16 = if b >= 0x80 { b as i16 - 0x100 } else { b as i16 };
                Ok(v as i8)
            }
            Err(e) => Err(e),
        }
    }

    pub fn read_i16(&mut self) -> (r: Result<i16, DecodeError>)
        requires
            old(self).wf(),
        ensures
            final(self).wf(),
            final(self).data() == old(self).data(),
            match r {
                Ok(v) => fits(old(self).data(), old(self).cursor(), 2)
                    && v as int == signed16(le16_at(old(self).data(), old(self).cursor()))
                    && final(self).cursor() == old(self).cursor() + 2,
                Err(e) => e == DecodeError::Truncated
                    && !fits(old(self).data(), old(self).cursor(), 2)
                    && final(self).cursor() == old(self).cursor(),
            },
    {
        match self.read_u16() {
            Ok(u) => {
                let v: i32 = if u >= 0x8000 { u as i32 - 0x1_0000 } else { u as i32 };
                Ok(v as i16)
            }
            Err(e) => Err(e),
        }
    }

    pub fn read_i32(&mut self) -> (r: Result<i32, DecodeError>)
        requires
            old(self).wf(),
        ensures
            final(self).wf(),
            final(self).data() == old(self).data(),
            match r {
                Ok(v) => fits(old(self).data(), old(self).cursor(), 4)
                    && v as int == signed32(le32_at(old(self).data(), old(self).cursor()))
                    && final(self).cursor() == old(self).cursor() + 4,
                Err(e) => e == DecodeError::Truncated
                    && !fits(old(self).data(), old(self).cursor(), 4)
                    && final(self).cursor() == old(self).cursor(),
            },
    {
        match self.read_u32() {
            Ok(u) => {
                let v: i64 = if u >= 0x8000_0000 { u as i64 - 0x1_0000_0000 } else { u as i64 };
                Ok(v as i32)
            }
            Err(e) => Err(e),
        }
    }

    /// Advance the cursor by `n` bytes without decoding them.
    pub fn skip(&mut self, n: usize) -> (r: Result<(), DecodeError>)
        requires
            old(self).wf(),
        ensures
            final(self).wf(),
            final(self).data() == old(self).data(),
            match r {
                Ok(_) => fits(old(self).data(), old(self).cursor(), n as int)
                    && final(self).cursor() == old(self).cursor() + n,
                Err(e) => e == DecodeError::Truncated
                    && !fits(old(self).data(), old(self).cursor(), n as int)
                    && final(self).cursor() == old(self).cursor(),
            },
    {
        if self.has(n) {
            self.pos = self.pos + n;
            Ok(())
        } else {
            Err(DecodeError::Truncated)
        }
    }

    /// Read `n` raw bytes.
    pub fn read_bytes(&mut self, n: usize) -> (r: Result<Vec<u8>, DecodeError>)
        requires
            old(self).wf(),
        ensures
            final(self).wf(),
            final(self).data() == old(self).data(),
            match r {
                Ok(v) => fits(old(self).data(), old(self).cursor(), n as int)
                    && v@ == old(self).data().subrange(
                        old(self).cursor(),
                        old(self).cursor() + n,
                    )
                    && final(self).cursor() == old(self).cursor() + n,
                Err(e) => e == DecodeError::Truncated
                    && !fits(old(self).data(), old(self).cursor(), n as int)
                    && final(self).cursor() == old(self).cursor(),
            },
    {
        if !self.has(n) {
            return Err(DecodeError::Truncated);
        }
        let start = self.pos;
        let mut out: Vec<u8> = Vec::new();
        let mut i: usize = 0;
        #[verifier::loop_isolation(false)]
        while i < n
            invariant
                i <= n,
                out@ == self.data().subrange(start as int, start + i),
            decreases n - i,
        {
            out.push(self.bytes[start + i]);
            i = i + 1;
            assert(out@ =~= self.data().subrange(start as int, start + i));
        }
        self.pos = start + n;
        Ok(out)
    }

    /// Read a fixed-size string field of `n` bytes: the value is the bytes
    /// before the first NUL, but all `n` bytes are consumed.
    pub fn read_sized_str(&mut self, n: usize) -> (r: Result<Vec<u8>, DecodeError>)
        requires
            old(self).wf(),
        ensures
            final(self).wf(),
            final(self).data() == old(self).data(),
            match r {
                Ok(v) => fits(old(self).data(), old(self).cursor(), n as int)
                    && v@ == nul_trimmed(old(self).data().subrange(
                        old(self).cursor(),
                        old(self).cursor() + n,
                    ))
                    && final(self).cursor() == old(self).cursor() + n,
                Err(e) => e == DecodeError::Truncated
                    && !fits(old(self).data(), old(self).cursor(), n as int)
                    && final(self).cursor() == old(self).cursor(),
            },
    {
        if !self.has(n) {
            return Err(DecodeError::Truncated);
        }
        let start = self.pos;
        let ghost field = self.data().subrange(start as int, start + n as int);
        let mut cut: usize = n;
        let mut i: usize = 0;
        #[verifier::loop_isolation(false)]
        while i < n
            invariant
                i <= n,
                cut == n || (cut < i && field[cut as int] == 0),
                forall|j: int| 0 <= j < i && j < cut ==> field[j] != 0,
            decreases n - i,
        {
            if self.bytes[start + i] == 0 && cut == n {
                cut = i;
            }
            i = i + 1;
        }
        let mut out: Vec<u8> = Vec::new();
        let mut k: usize = 0;
        #[verifier::loop_isolation(false)]
        while k < cut
            invariant
                k <= cut,
                out@ == self.data().subrange(start as int, start + k),
            decreases cut - k,
        {
            out.push(self.bytes[start + k]);
            k = k + 1;
            assert(out@ =~= self.data().subrange(start as int, start + k));
        }
        proof {
            lemma_nul_trimmed_prefix(field, cut as int);
            assert(out@ =~= field.subrange(0, cut as int));
        }
        self.pos = start + n;
        Ok(out)
    }
}

} // verus!
