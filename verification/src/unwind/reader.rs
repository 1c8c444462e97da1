//! Reading DWARF-encoded values (`.eh_frame` and `.eh_frame_hdr`) through a
//! byte peeker.
use vstd::prelude::*;

verus! {

/// Value formats of the DWARF pointer encoding (low nibble).
#[derive(Debug, Eq, PartialEq, Clone, Copy, Structural)]
pub enum Format {
    /// Pointer size.
    Pointer,
    /// Unsigned value is encoded using the Little Endian Base 128 (LEB128).
    UnsignedData16,
    /// A 2 bytes unsigned value.
    UnsignedData2,
    /// A 4 bytes unsigned value.
    UnsignedData4,
    /// An 8 bytes unsigned value.
    UnsignedData8,
    /// Signed value is encoded using the Little Endian Base 128 (LEB128).
    SignedData16,
    /// A 2 bytes signed value.
    SignedData2,
    /// A 4 bytes signed value.
    SignedData4,
    /// An 8 bytes signed value.
    SignedData8,
    /// Unused
    Unused,
}

/// How a decoded value is applied (high nibble of the DWARF pointer encoding).
#[derive(Debug, Eq, PartialEq, Clone, Copy, Structural)]
pub enum Application {
    /// Value is used with no modification.
    Absoulte,
    /// Value is relative to the current program counter.
    PcRelative,
    /// Value is relative to the beginning of the .eh_frame_hdr section.
    DataRelative,
}

/// A DWARF pointer encoding.
#[derive(Debug, Clone, Copy, PartialEq, Eq, Structural)]
pub struct Encoding {
    pub format: Format,
    pub application: Application,
}

/// The format a low nibble denotes, if any.
pub open spec fn format_of(n: u8) -> Option<Format> {
    if n == 0 {
        Some(Format::Pointer)
    } else if n == 1 {
        Some(Format::UnsignedData16)
    } else if n == 2 {
        Some(Format::UnsignedData2)
    } else if n == 3 {
        Some(Format::UnsignedData4)
    } else if n == 4 {
        Some(Format::UnsignedData8)
    } else if n == 9 {
        Some(Format::SignedData16)
    } else if n == 10 {
        Some(Format::SignedData2)
    } else if n == 11 {
        Some(Format::SignedData4)
    } else if n == 12 {
        Some(Format::SignedData8)
    } else if n == 15 {
        Some(Format::Unused)
    } else {
        None
    }
}

/// The application bits 4..7 denote, if any.
pub open spec fn application_of(n: u8) -> Option<Application> {
    if n == 0 {
        Some(Application::Absoulte)
    } else if n == 1 {
        Some(Application::PcRelative)
    } else if n == 3 {
        Some(Application::DataRelative)
    } else {
        None
    }
}

/// Whether `s` is a pointer-encoding byte this unwinder understands.
pub open spec fn encoding_valid(s: u8) -> bool {
    format_of(s & 15) is Some && application_of((s >> 4) & 7) is Some
}

impl Encoding {
    /// The encoding a valid pointer-encoding byte denotes.
    pub open spec fn spec_from(s: u8) -> Encoding {
        Encoding { format: format_of(s & 15)->0, application: application_of((s >> 4) & 7)->0 }
    }

    /// Decode a pointer-encoding byte.
    pub fn from(s: u8) -> (r: Encoding)
        requires
            encoding_valid(s),
        ensures
            r == Encoding::spec_from(s),
            Some(r.format) == format_of(s & 15),
            Some(r.application) == application_of((s >> 4) & 7),
    {
        let format = s & 15;
        let app = (s >> 4) & 7;
        Encoding {
            format: if format == 0 {
                Format::Pointer
            } else if format == 1 {
                Format::UnsignedData16
            } else if format == 2 {
                Format::UnsignedData2
            } else if format == 3 {
                Format::UnsignedData4
            } else if format == 4 {
                Format::UnsignedData8
            } else if format == 9 {
                Format::SignedData16
            } else if format == 10 {
                Format::SignedData2
            } else if format == 11 {
                Format::SignedData4
            } else if format == 12 {
                Format::SignedData8
            } else {
                Format::Unused
            },
            application: if app == 0 {
                Application::Absoulte
            } else if app == 1 {
                Application::PcRelative
            } else {
                Application::DataRelative
            },
        }
    }

    /// Byte size of fixed-size values of this encoding (0 for the others).
    pub open spec fn spec_size(&self) -> usize {
        match self.format {
            Format::SignedData2 | Format::UnsignedData2 => 2,
            Format::SignedData4 | Format::UnsignedData4 => 4,
            Format::SignedData8 | Format::UnsignedData8 => 8,
            Format::SignedData16 | Format::UnsignedData16 => 16,
            _ => 0,
        }
    }

    /// Byte size of fixed-size values of this encoding (0 for the others).
    pub fn size(&self) -> (r: usize)
        ensures
            r == self.spec_size(),
    {
        match self.format {
            Format::SignedData2 | Format::UnsignedData2 => 2,
            Format::SignedData4 | Format::UnsignedData4 => 4,
            Format::SignedData8 | Format::UnsignedData8 => 8,
            Format::SignedData16 | Format::UnsignedData16 => 16,
            _ => 0,
        }
    }
}

/// The value of the first `n` 7-bit groups of a LEB128 byte sequence, as the
/// decoder accumulates it in a `usize`.
pub open spec fn leb_acc(s: Seq<u8>, n: nat) -> u64
    decreases n,
{
    if n == 0 {
        0
    } else {
        leb_acc(s, (n - 1) as nat) | (((s[n - 1] & 0x7f) as u64) << ((7 * (n - 1)) as u64))
    }
}

/// Whether `s` holds a complete LEB128 number the decoder accepts: its last
/// byte is the only one without the continuation bit and it has at most 10 bytes.
pub open spec fn leb_complete(s: Seq<u8>) -> bool {
    &&& 1 <= s.len() <= 10
    &&& s[s.len() - 1] & 0x80 == 0
    &&& forall|k: int| 0 <= k < s.len() - 1 ==> #[trigger] s[k] & 0x80 == 0x80
}

/// Whether a decoder reading `s` stops within 10 bytes (or at the end of `s`):
/// an 11th group would be shifted past the width of `usize`.
pub open spec fn leb_bounded(s: Seq<u8>) -> bool {
    !(s.len() > 10 && forall|k: int| 0 <= k < 10 ==> #[trigger] s[k] & 0x80 == 0x80)
}

/// The value of a complete unsigned LEB128 number.
pub open spec fn uleb_value(s: Seq<u8>) -> usize {
    leb_acc(s, s.len()) as usize
}

/// The value of a complete signed LEB128 number.
pub open spec fn sleb_value(s: Seq<u8>) -> isize {
    let shift = 7 * s.len();
    if shift < 64 && s[s.len() - 1] & 0x40 != 0 {
        ((leb_acc(s, s.len()) | (u64::MAX << (shift as u64))) as i64) as isize
    } else {
        (leb_acc(s, s.len()) as i64) as isize
    }
}

/// Decodes an unsigned LEB128 number from the front of `bytes`.
///
/// Returns the value and the number of bytes it took, or `None` when `bytes`
/// ends before the number does.
pub fn get_uleb128(bytes: &[u8]) -> (r: Option<(usize, usize)>)
    requires
        leb_bounded(bytes@),
    ensures
        match r {
            Some((v, n)) => n <= bytes@.len() && leb_complete(bytes@.subrange(0, n as int)) && v
                == uleb_value(bytes@.subrange(0, n as int)),
            None => forall|k: int| 0 <= k < bytes@.len() ==> #[trigger] bytes@[k] & 0x80 == 0x80,
        },
{
    let (v, n, last) = match leb_scan(bytes) {
        Some(x) => x,
        None => return None,
    };
    Some((v as usize, n))
}

/// Decodes a signed LEB128 number from the front of `bytes`.
pub fn get_sleb128(bytes: &[u8]) -> (r: Option<(isize, usize)>)
    requires
        leb_bounded(bytes@),
    ensures
        match r {
            Some((v, n)) => n <= bytes@.len() && leb_complete(bytes@.subrange(0, n as int)) && v
                == sleb_value(bytes@.subrange(0, n as int)),
            None => forall|k: int| 0 <= k < bytes@.len() ==> #[trigger] bytes@[k] & 0x80 == 0x80,
        },
{
    let (v, n, last) = match leb_scan(bytes) {
        Some(x) => x,
        None => return None,
    };
    Some((sleb_finish(v, n, last, Ghost(bytes@.subrange(0, n as int))), n))
}

/// Applies the sign extension of a signed LEB128 number whose groups
/// accumulate to `v` over `n` bytes ending with `last`.
fn sleb_finish(v: u64, n: usize, last: u8, Ghost(s): Ghost<Seq<u8>>) -> (r: isize)
    requires
        leb_complete(s),
        s.len() == n,
        s[n - 1] == last,
        v == leb_acc(s, n as nat),
    ensures
        r == sleb_value(s),
{
    let shift = 7 * n;
    if shift < 64 && (last & 0x40) != 0 {
        ((v | (u64::MAX << shift as u64)) as i64) as isize
    } else {
        (v as i64) as isize
    }
}

/// Scans a LEB128 number: the accumulated groups, the byte count and the last byte.
fn leb_scan(bytes: &[u8]) -> (r: Option<(u64, usize, u8)>)
    requires
        leb_bounded(bytes@),
    ensures
        match r {
            Some((v, n, last)) => n <= bytes@.len() && leb_complete(bytes@.subrange(0, n as int))
                && v == leb_acc(bytes@, n as nat) && v == leb_acc(bytes@.subrange(0, n as int), n as nat)
                && last == bytes@[n - 1],
            None => forall|k: int| 0 <= k < bytes@.len() ==> #[trigger] bytes@[k] & 0x80 == 0x80,
        },
{
    let mut val: u64 = 0;
    let mut i: usize = 0;
    let mut ch: u8 = 0x80;
    while ch & 0x80 == 0x80
        invariant
            i <= bytes@.len(),
            i <= 10,
            val == leb_acc(bytes@, i as nat),
            i > 0 ==> ch == bytes@[i - 1],
            i > 0 ==> forall|k: int| 0 <= k < i - 1 ==> #[trigger] bytes@[k] & 0x80 == 0x80,
            i == 0 ==> ch == 0x80,
            leb_bounded(bytes@),
        decreases bytes@.len() - i,
    {
        if i >= bytes.len() {
            return None;
        }
        assert(i < 10);
        ch = bytes[i];
        val = val | (((ch & 0x7f) as u64) << (7 * i) as u64);
        i += 1;
    }
    proof {
        lemma_leb_acc_prefix(bytes@, i as nat);
        assert(ch & 0x80 == 0) by (bit_vector)
            requires
                ch & 0x80 != 0x80,
        ;
    }
    assert(0x80u8 & 0x80 == 0x80) by (bit_vector);
    assert(i > 0);
    let ghost sub = bytes@.subrange(0, i as int);
    assert(forall|k: int| 0 <= k < sub.len() - 1 ==> #[trigger] sub[k] & 0x80 == 0x80) by {
        assert forall|k: int| 0 <= k < sub.len() - 1 implies #[trigger] sub[k] & 0x80 == 0x80 by {
            assert(sub[k] == bytes@[k]);
        }
    }
    assert(sub[sub.len() - 1] == ch);
    assert(leb_complete(sub));
    Some((val, i, ch))
}

/// The accumulated groups only depend on the bytes they cover.
proof fn lemma_leb_acc_prefix(s: Seq<u8>, n: nat)
    requires
        n <= s.len(),
    ensures
        leb_acc(s, n) == leb_acc(s.subrange(0, n as int), n),
    decreases n,
{
    if n > 0 {
        lemma_leb_acc_prefix(s, (n - 1) as nat);
        lemma_leb_acc_sub(s, n, (n - 1) as nat);
    }
}

proof fn lemma_leb_acc_sub(s: Seq<u8>, n: nat, m: nat)
    requires
        m <= n <= s.len(),
    ensures
        leb_acc(s.subrange(0, n as int), m) == leb_acc(s.subrange(0, m as int), m),
    decreases m,
{
    if m > 0 {
        lemma_leb_acc_sub(s, n, (m - 1) as nat);
        lemma_leb_acc_sub(s, m, (m - 1) as nat);
    }
}


/// Byte peekable object.
pub trait Peeker: Sized {
    /// The byte at address `pos`, or `None` when it cannot be read.
    spec fn spec_peek(&self, pos: int) -> Option<u8>;

    /// Read the byte at address `pos`.
    fn peek(&self, pos: usize) -> (r: Option<u8>)
        ensures
            r == self.spec_peek(pos as int),
    ;

    /// A copy of this peeker that sees the same bytes.
    fn duplicate(&self) -> (r: Self)
        ensures
            forall|p: int| #[trigger] r.spec_peek(p) == self.spec_peek(p),
    ;
}

/// Bytes held in memory, seen at addresses from `base`.
pub struct BytePeeker {
    pub base: usize,
    pub bytes: Vec<u8>,
}

impl Peeker for BytePeeker {
    open spec fn spec_peek(&self, pos: int) -> Option<u8> {
        if self.base <= pos < self.base + self.bytes@.len() {
            Some(self.bytes@[pos - self.base])
        } else {
            None
        }
    }

    fn peek(&self, pos: usize) -> (r: Option<u8>) {
        if pos >= self.base && pos - self.base < self.bytes.len() {
            Some(self.bytes[pos - self.base])
        } else {
            None
        }
    }

    fn duplicate(&self) -> (r: BytePeeker) {
        let mut bytes: Vec<u8> = Vec::new();
        let mut i: usize = 0;
        while i < self.bytes.len()
            invariant
                i <= self.bytes.len(),
                bytes@ == self.bytes@.take(i as int),
            decreases self.bytes.len() - i,
        {
            bytes.push(self.bytes[i]);
            i = i + 1;
            assert(bytes@ =~= self.bytes@.take(i as int));
        }
        assert(bytes@ =~= self.bytes@);
        BytePeeker { base: self.base, bytes }
    }
}

/// The `n` bytes at `at`, when all of them can be read.
pub open spec fn peek_range<T: Peeker>(p: T, at: int, n: nat) -> Option<Seq<u8>> {
    if forall|k: int| 0 <= k < n ==> (#[trigger] p.spec_peek(at + k)) is Some {
        Some(Seq::new(n, |k: int| p.spec_peek(at + k)->0))
    } else {
        None
    }
}

/// The little-endian value of up to 8 bytes.
pub open spec fn le_value(s: Seq<u8>) -> u64
    decreases s.len(),
{
    if s.len() == 0 {
        0
    } else {
        (s[0] as u64) | (le_value(s.drop_first()) << 8u64)
    }
}

/// The little-endian value of the bytes, when they could be read.
pub open spec fn opt_le(o: Option<Seq<u8>>) -> Option<u64> {
    match o {
        Some(s) => Some(le_value(s)),
        None => None,
    }
}

/// Narrowing of an optional value to `u8`.
pub open spec fn opt_u8(o: Option<u64>) -> Option<u8> {
    match o {
        Some(v) => Some(v as u8),
        None => None,
    }
}

/// Narrowing of an optional value to `u16`.
pub open spec fn opt_u16(o: Option<u64>) -> Option<u16> {
    match o {
        Some(v) => Some(v as u16),
        None => None,
    }
}

/// Narrowing of an optional value to `u32`.
pub open spec fn opt_u32(o: Option<u64>) -> Option<u32> {
    match o {
        Some(v) => Some(v as u32),
        None => None,
    }
}

/// A reader of DWARF-encoded data through a peeker, positioned at
/// `start + pos` and bounded by `end` (relative to `start`).
pub struct DwarfReader<T: Peeker> {
    start: usize,
    pos: usize,
    end: usize,
    peeker: T,
}

impl<T: Peeker> DwarfReader<T> {
    /// Address the reader's positions are relative to.
    pub closed spec fn spec_start(&self) -> usize {
        self.start
    }

    /// Current position, relative to the start.
    pub closed spec fn spec_pos(&self) -> usize {
        self.pos
    }

    /// Bound of the readable window, relative to the start.
    pub closed spec fn spec_end(&self) -> usize {
        self.end
    }

    /// The peeker the reader reads through.
    pub closed spec fn spec_peeker(&self) -> T {
        self.peeker
    }

    /// This reader moved forward by `n` bytes.
    pub closed spec fn advanced(&self, n: int) -> Self {
        DwarfReader { start: self.start, pos: (self.pos + n) as usize, end: self.end, peeker: self.peeker }
    }

    /// This reader moved to the beginning of `start`, unbounded.
    pub closed spec fn reset_to(&self, start: usize) -> Self {
        DwarfReader { start, pos: 0, end: usize::MAX, peeker: self.peeker }
    }

    /// This reader with its window bounded at `end`.
    pub closed spec fn with_end(&self, end: usize) -> Self {
        DwarfReader { start: self.start, pos: self.pos, end, peeker: self.peeker }
    }

    /// What moving to a new start and bounding the window change.
    pub proof fn lemma_reset_to(&self, start: usize, end: usize)
        ensures
            self.reset_to(start).spec_start() == start,
            self.reset_to(start).spec_pos() == 0,
            self.reset_to(start).spec_end() == usize::MAX,
            self.reset_to(start).spec_peeker() == self.spec_peeker(),
            self.with_end(end).spec_start() == self.spec_start(),
            self.with_end(end).spec_pos() == self.spec_pos(),
            self.with_end(end).spec_end() == end,
            self.with_end(end).spec_peeker() == self.spec_peeker(),
    {
    }

    /// Moving forward changes nothing but the position.
    pub proof fn lemma_advanced(&self, n: int)
        ensures
            self.advanced(n).spec_start() == self.spec_start(),
            self.advanced(n).spec_pos() == (self.spec_pos() + n) as usize,
            self.advanced(n).spec_end() == self.spec_end(),
            self.advanced(n).spec_peeker() == self.spec_peeker(),
    {
    }

    /// Readers with the same position, window and peeker are the same reader.
    pub proof fn lemma_same_state(a: Self, b: Self)
        requires
            a.spec_start() == b.spec_start(),
            a.spec_pos() == b.spec_pos(),
            a.spec_end() == b.spec_end(),
            a.spec_peeker() == b.spec_peeker(),
        ensures
            a == b,
    {
    }

    /// Whether two readers see the same bytes.
    pub open spec fn same_bytes(&self, other: &Self) -> bool {
        forall|p: int| #[trigger] self.spec_peeker().spec_peek(p) == other.spec_peeker().spec_peek(p)
    }

    /// A reader at the beginning of `start`, unbounded.
    pub fn from_peeker(start: usize, peeker: T) -> (r: Self)
        ensures
            r.spec_start() == start,
            r.spec_pos() == 0,
            r.spec_end() == usize::MAX,
            r.spec_peeker() == peeker,
    {
        Self { peeker, start, pos: 0, end: usize::MAX }
    }

    /// A copy of this reader at the same position.
    pub fn duplicate(&self) -> (r: Self)
        ensures
            r.spec_start() == self.spec_start(),
            r.spec_pos() == self.spec_pos(),
            r.spec_end() == self.spec_end(),
            r.same_bytes(self),
    {
        Self { peeker: self.peeker.duplicate(), start: self.start, pos: self.pos, end: self.end }
    }

    /// Move the reader to the beginning of `start`, unbounded.
    pub fn reset(&mut self, start: usize)
        ensures
            final(self).spec_start() == start,
            final(self).spec_pos() == 0,
            final(self).spec_end() == usize::MAX,
            final(self).spec_peeker() == old(self).spec_peeker(),
    {
        self.start = start;
        self.pos = 0;
        self.end = usize::MAX;
    }

    /// The current address.
    pub fn current(&self) -> (r: usize)
        requires
            self.spec_start() + self.spec_pos() <= usize::MAX,
        ensures
            r == self.spec_start() + self.spec_pos(),
    {
        self.start + self.pos
    }

    /// Move forward by `p` bytes.
    pub fn wheel(&mut self, p: isize)
        requires
            old(self).spec_pos() + (p as usize) <= usize::MAX,
        ensures
            final(self).spec_pos() == old(self).spec_pos() + (p as usize),
            final(self).spec_start() == old(self).spec_start(),
            final(self).spec_end() == old(self).spec_end(),
            final(self).spec_peeker() == old(self).spec_peeker(),
    {
        self.pos = self.pos + p as usize;
    }

    /// Bound the window to `p` bytes from the start, unless it already ends earlier.
    pub fn set_end(&mut self, p: usize) -> (r: bool)
        requires
            old(self).spec_start() + p <= usize::MAX,
        ensures
            r == (old(self).spec_end() >= old(self).spec_start() + p),
            final(self).spec_end() == (if r {
                (old(self).spec_start() + p) as usize
            } else {
                old(self).spec_end()
            }),
            final(self).spec_start() == old(self).spec_start(),
            final(self).spec_pos() == old(self).spec_pos(),
            final(self).spec_peeker() == old(self).spec_peeker(),
    {
        if self.end >= self.start + p {
            self.end = self.start + p;
            true
        } else {
            false
        }
    }

    /// The `n` bytes at the current position, without moving, when all of
    /// them can be read.
    pub fn peek_bytes(&self, n: usize) -> (r: Option<Vec<u8>>)
        requires
            self.spec_start() + self.spec_pos() + n <= usize::MAX,
        ensures
            r is Some <==> self.next_bytes(n as nat) is Some,
            r is Some ==> r->0@ == self.next_bytes(n as nat)->0,
    {
        let at = self.start + self.pos;
        let mut bytes: Vec<u8> = Vec::new();
        let mut k: usize = 0;
        while k < n
            invariant
                k <= n,
                at + n <= usize::MAX,
                at == self.spec_start() + self.spec_pos(),
                bytes@.len() == k,
                forall|j: int| 0 <= j < k ==> self.peeker.spec_peek(at + j) == Some(#[trigger] bytes@[j]),
            decreases n - k,
        {
            match self.peeker.peek(at + k) {
                Some(b) => bytes.push(b),
                None => {
                    assert(!(forall|j: int| 0 <= j < n ==> (#[trigger] self.peeker.spec_peek(at + j)) is Some));
                    return None;
                },
            }
            k += 1;
        }
        assert(forall|j: int| 0 <= j < n ==> (#[trigger] self.peeker.spec_peek(at + j)) is Some) by {
            assert forall|j: int| 0 <= j < n implies (#[trigger] self.peeker.spec_peek(at + j)) is Some by {
                assert(self.peeker.spec_peek(at + j) == Some(bytes@[j]));
            }
        }
        assert(bytes@ =~= Seq::new(n as nat, |j: int| self.peeker.spec_peek(at + j)->0));
        Some(bytes)
    }

    /// The current position, relative to the start.
    pub fn position(&self) -> (r: usize)
        ensures
            r == self.spec_pos(),
    {
        self.pos
    }

    /// The start, position and bound of the window.
    pub fn snapshot(&self) -> (r: (usize, usize, usize))
        ensures
            r == (self.spec_start(), self.spec_pos(), self.spec_end()),
    {
        (self.start, self.pos, self.end)
    }

    /// Put back a start, position and bound that [`Self::snapshot`] gave.
    pub fn restore(&mut self, state: (usize, usize, usize))
        ensures
            final(self).spec_start() == state.0,
            final(self).spec_pos() == state.1,
            final(self).spec_end() == state.2,
            final(self).spec_peeker() == old(self).spec_peeker(),
    {
        self.start = state.0;
        self.pos = state.1;
        self.end = state.2;
    }

    /// The bound of the window.
    pub fn end(&self) -> (r: usize)
        ensures
            r == self.spec_end(),
    {
        self.end
    }

    /// The `n` bytes a read at the current position covers.
    pub open spec fn next_bytes(&self, n: nat) -> Option<Seq<u8>> {
        peek_range(self.spec_peeker(), self.spec_start() + self.spec_pos(), n)
    }

    /// Whether `n` more bytes fit in the window.
    pub open spec fn fits(&self, n: nat) -> bool {
        self.spec_pos() + n <= self.spec_end()
    }

    /// Whether a read of `n` bytes at the current position can be carried out.
    pub open spec fn can_read(&self, n: nat) -> bool {
        self.spec_pos() + n <= usize::MAX && (self.fits(n) ==> self.spec_start() + self.spec_pos()
            + n <= usize::MAX)
    }

    /// Reads `n` bytes little-endian.
    fn read_le(&mut self, n: usize) -> (r: Option<u64>)
        requires
            1 <= n <= 8,
            old(self).can_read(n as nat),
        ensures
            final(self).spec_start() == old(self).spec_start(),
            final(self).spec_end() == old(self).spec_end(),
            final(self).spec_peeker() == old(self).spec_peeker(),
            old(self).fits(n as nat) ==> final(self).spec_pos() == old(self).spec_pos() + n && r
                == opt_le(old(self).next_bytes(n as nat)),
            !old(self).fits(n as nat) ==> final(self).spec_pos() == old(self).spec_pos() && r is None,
    {
        if self.pos + n <= self.end {
            let at = self.start + self.pos;
            let mut bytes: Vec<u8> = Vec::new();
            let mut k: usize = 0;
            let mut ok = true;
            while k < n
                invariant
                    k <= n,
                    n <= 8,
                    at + n <= usize::MAX,
                    self.peeker == old(self).peeker,
                    self.start == old(self).start,
                    self.pos == old(self).pos,
                    self.end == old(self).end,
                    at == old(self).start + old(self).pos,
                    bytes@.len() == k,
                    ok ==> forall|j: int| 0 <= j < k ==> self.peeker.spec_peek(at + j) == Some(#[trigger] bytes@[j]),
                    !ok ==> exists|j: int| 0 <= j < k && (#[trigger] self.peeker.spec_peek(at + j)) is None,
                decreases n - k,
            {
                match self.peeker.peek(at + k) {
                    Some(b) => bytes.push(b),
                    None => {
                        ok = false;
                        bytes.push(0);
                    },
                }
                k += 1;
            }
            self.pos = self.pos + n;
            let ghost base = old(self).spec_start() + old(self).spec_pos();
            assert(base == at);
            if !ok {
                proof {
                    let j = choose|j: int| 0 <= j < k && (#[trigger] self.peeker.spec_peek(at + j)) is None;
                    assert(!(old(self).spec_peeker().spec_peek(base + j) is Some));
                    assert(old(self).next_bytes(n as nat) is None);
                }
                return None;
            }
            assert(forall|j: int| 0 <= j < n ==> (#[trigger] old(self).spec_peeker().spec_peek(base + j)) is Some) by {
                assert forall|j: int| 0 <= j < n implies (#[trigger] old(self).spec_peeker().spec_peek(base + j)) is Some by {
                    assert(self.peeker.spec_peek(at + j) == Some(bytes@[j]));
                }
            }
            let ghost s = Seq::new(n as nat, |j: int| self.peeker.spec_peek(at + j)->0);
            assert(bytes@ =~= s);
            assert(old(self).next_bytes(n as nat) == Some(s));
            Some(le_fold(&bytes))
        } else {
            None
        }
    }

    /// Read a `u8`.
    pub fn read_u8(&mut self) -> (r: Option<u8>)
        requires
            old(self).can_read(1),
        ensures
            final(self).spec_start() == old(self).spec_start(),
            final(self).spec_end() == old(self).spec_end(),
            final(self).spec_peeker() == old(self).spec_peeker(),
            old(self).fits(1) ==> final(self).spec_pos() == old(self).spec_pos() + 1 && r
                == opt_u8(opt_le(old(self).next_bytes(1))),
            !old(self).fits(1) ==> final(self).spec_pos() == old(self).spec_pos() && r is None,
    {
        match self.read_le(1) {
            Some(v) => Some(v as u8),
            None => None,
        }
    }

    /// Read a little-endian `u16`.
    pub fn read_u16(&mut self) -> (r: Option<u16>)
        requires
            old(self).can_read(2),
        ensures
            final(self).spec_start() == old(self).spec_start(),
            final(self).spec_end() == old(self).spec_end(),
            final(self).spec_peeker() == old(self).spec_peeker(),
            old(self).fits(2) ==> final(self).spec_pos() == old(self).spec_pos() + 2 && r
                == opt_u16(opt_le(old(self).next_bytes(2))),
            !old(self).fits(2) ==> final(self).spec_pos() == old(self).spec_pos() && r is None,
    {
        match self.read_le(2) {
            Some(v) => Some(v as u16),
            None => None,
        }
    }

    /// Read a little-endian `u32`.
    pub fn read_u32(&mut self) -> (r: Option<u32>)
        requires
            old(self).can_read(4),
        ensures
            final(self).spec_start() == old(self).spec_start(),
            final(self).spec_end() == old(self).spec_end(),
            final(self).spec_peeker() == old(self).spec_peeker(),
            old(self).fits(4) ==> final(self).spec_pos() == old(self).spec_pos() + 4 && r
                == opt_u32(opt_le(old(self).next_bytes(4))),
            !old(self).fits(4) ==> final(self).spec_pos() == old(self).spec_pos() && r is None,
    {
        match self.read_le(4) {
            Some(v) => Some(v as u32),
            None => None,
        }
    }

    /// Read a little-endian `u64`.
    pub fn read_u64(&mut self) -> (r: Option<u64>)
        requires
            old(self).can_read(8),
        ensures
            final(self).spec_start() == old(self).spec_start(),
            final(self).spec_end() == old(self).spec_end(),
            final(self).spec_peeker() == old(self).spec_peeker(),
            old(self).fits(8) ==> final(self).spec_pos() == old(self).spec_pos() + 8 && r
                == opt_le(old(self).next_bytes(8)),
            !old(self).fits(8) ==> final(self).spec_pos() == old(self).spec_pos() && r is None,
    {
        self.read_le(8)
    }
}

/// The LEB128 bytes a reader sees from `at + k` on, with `room` bytes left in
/// its window: up to and including the first byte without the continuation
/// bit, or `None` when a byte cannot be read first.
pub open spec fn leb_from<T: Peeker>(p: T, at: int, room: int, k: nat) -> Option<Seq<u8>>
    decreases 11 - k,
{
    if k > 10 || k + 1 > room {
        None
    } else {
        match p.spec_peek(at + k) {
            None => None,
            Some(b) => if b & 0x80 == 0 {
                Some(seq![b])
            } else if k == 10 {
                None
            } else {
                match leb_from(p, at, room, k + 1) {
                    Some(t) => Some(seq![b] + t),
                    None => None,
                }
            },
        }
    }
}

/// Whether a LEB128 decoder would read an 11th byte (ten continuation bytes
/// followed by a readable byte), which shifts past the width of the value.
pub open spec fn leb_overlong<T: Peeker>(p: T, at: int, room: int) -> bool {
    &&& room >= 11
    &&& forall|k: int| 0 <= k <= 10 ==> (#[trigger] p.spec_peek(at + k)) is Some
    &&& forall|k: int| 0 <= k < 10 ==> (#[trigger] p.spec_peek(at + k))->0 & 0x80 == 0x80
}

/// How many bytes a LEB128 decoder that started at `at`, with `room` bytes
/// left in its window, has consumed once it stops, `k` bytes having been
/// consumed: a byte that fits the window is consumed even when it cannot
/// be read.
pub open spec fn leb_consumed<T: Peeker>(p: T, at: int, room: int, k: nat) -> nat
    decreases 11 - k,
{
    if k > 10 || k + 1 > room {
        k
    } else if k == 10 {
        k + 1
    } else {
        match p.spec_peek(at + k) {
            None => k + 1,
            Some(b) => if b & 0x80 == 0 {
                k + 1
            } else {
                leb_consumed(p, at, room, k + 1)
            },
        }
    }
}

impl<T: Peeker> DwarfReader<T> {
    /// The LEB128 number at the current position.
    pub open spec fn next_leb(&self) -> Option<Seq<u8>> {
        leb_from(
            self.spec_peeker(),
            self.spec_start() + self.spec_pos(),
            self.spec_end() - self.spec_pos(),
            0,
        )
    }

    /// How many bytes LEB128 decoding at the current position consumes,
    /// whether it succeeds or not.
    pub open spec fn leb_advance(&self) -> nat {
        leb_consumed(
            self.spec_peeker(),
            self.spec_start() + self.spec_pos(),
            self.spec_end() - self.spec_pos(),
            0,
        )
    }

    /// Whether LEB128 decoding at the current position can be carried out.
    pub open spec fn can_read_leb(&self) -> bool {
        &&& self.spec_pos() <= self.spec_end()
        &&& self.spec_start() + self.spec_pos() + 11 <= usize::MAX
        &&& !leb_overlong(
            self.spec_peeker(),
            self.spec_start() + self.spec_pos(),
            self.spec_end() - self.spec_pos(),
        )
    }

    /// Reads the raw bytes of a LEB128 number.
    fn read_leb_bytes(&mut self) -> (r: Option<Vec<u8>>)
        requires
            old(self).can_read_leb(),
        ensures
            final(self).spec_start() == old(self).spec_start(),
            final(self).spec_end() == old(self).spec_end(),
            final(self).spec_peeker() == old(self).spec_peeker(),
            final(self).spec_pos() <= final(self).spec_end(),
            final(self).spec_pos() == old(self).spec_pos() + old(self).leb_advance(),
            match r {
                Some(v) => old(self).next_leb() == Some(v@) && leb_complete(v@)
                    && final(self).spec_pos() == old(self).spec_pos() + v@.len(),
                None => old(self).next_leb() is None,
            },
    {
        let ghost at = self.start + self.pos;
        let ghost room = self.end - self.pos;
        let mut out: Vec<u8> = Vec::new();
        loop
            invariant
                self.spec_start() == old(self).spec_start(),
                self.spec_end() == old(self).spec_end(),
                self.spec_peeker() == old(self).spec_peeker(),
                self.spec_pos() <= self.spec_end(),
                at == old(self).spec_start() + old(self).spec_pos(),
                room == old(self).spec_end() - old(self).spec_pos(),
                self.spec_pos() == old(self).spec_pos() + out@.len(),
                old(self).can_read_leb(),
                out@.len() <= 10,
                forall|j: int| 0 <= j < out@.len() ==> #[trigger] out@[j] & 0x80 == 0x80,
                forall|j: int| 0 <= j < out@.len() ==> self.spec_peeker().spec_peek(at + j) == Some(#[trigger] out@[j]),
                old(self).leb_advance() == leb_consumed(self.spec_peeker(), at, room, out@.len()),
                old(self).next_leb() == (match leb_from(self.spec_peeker(), at, room, out@.len()) {
                    Some(t) => Some(out@ + t),
                    None => None::<Seq<u8>>,
                }),
            decreases 11 - out@.len(),
        {
            let ghost k = out@.len();
            if out.len() == 10 {
                // ten continuation bytes were read: an 11th byte cannot be read
                proof {
                    if self.spec_pos() + 1 <= self.spec_end() && self.spec_peeker().spec_peek(at + 10) is Some {
                        assert forall|j: int| 0 <= j <= 10 implies (#[trigger] self.spec_peeker().spec_peek(at + j)) is Some by {
                            if j < 10 {
                                assert(self.spec_peeker().spec_peek(at + j) == Some(out@[j]));
                            }
                        }
                        assert forall|j: int| 0 <= j < 10 implies (#[trigger] self.spec_peeker().spec_peek(at + j))->0 & 0x80 == 0x80 by {
                            assert(self.spec_peeker().spec_peek(at + j) == Some(out@[j]));
                        }
                        assert(leb_overlong(self.spec_peeker(), at, room));
                    }
                }
                proof {
                    lemma_one_byte(self.spec_peeker(), at + 10);
                }
                let b = self.read_u8();
                assert(b is None);
                return None;
            }
            proof {
                lemma_one_byte(self.spec_peeker(), at + k);
            }
            let b = self.read_u8();
            match b {
                None => {
                    assert(leb_from(self.spec_peeker(), at, room, k) is None);
                    return None;
                },
                Some(c) => {
                    assert(self.spec_peeker().spec_peek(at + k) == Some(c));
                    if c & 0x80 == 0 {
                        let ghost prev0 = out@;
                        out.push(c);
                        assert(out@ =~= prev0 + seq![c]);
                        return Some(out);
                    }
                    assert(c & 0x80 == 0x80) by (bit_vector)
                        requires c & 0x80 != 0,
                    ;
                    let ghost prev = out@;
                    out.push(c);
                    proof {
                        match leb_from(self.spec_peeker(), at, room, k + 1) {
                            Some(t) => {
                                assert(prev + (seq![c] + t) =~= out@ + t);
                            },
                            None => {},
                        }
                    }
                }
            }
        }
    }

    /// Read an unsigned LEB128 number.
    pub fn read_uleb128(&mut self) -> (r: Option<usize>)
        requires
            old(self).can_read_leb(),
        ensures
            final(self).spec_start() == old(self).spec_start(),
            final(self).spec_end() == old(self).spec_end(),
            final(self).spec_peeker() == old(self).spec_peeker(),
            final(self).spec_pos() == old(self).spec_pos() + old(self).leb_advance(),
            match old(self).next_leb() {
                Some(s) => r == Some(uleb_value(s)) && final(self).spec_pos() == old(self).spec_pos()
                    + s.len(),
                None => r is None,
            },
    {
        match self.read_leb_bytes() {
            Some(v) => {
                let n = v.len();
                match leb_scan(v.as_slice()) {
                    Some((acc, m, _)) => {
                        proof { lemma_leb_complete_unique(v@, m as int); }
                        assert(v@.subrange(0, m as int) =~= v@);
                        Some(acc as usize)
                    },
                    None => {
                        assert(v@[n - 1] & 0x80 == 0);
                        assert(false);
                        None
                    },
                }
            },
            None => None,
        }
    }

    /// Read a signed LEB128 number.
    pub fn read_sleb128(&mut self) -> (r: Option<isize>)
        requires
            old(self).can_read_leb(),
        ensures
            final(self).spec_start() == old(self).spec_start(),
            final(self).spec_end() == old(self).spec_end(),
            final(self).spec_peeker() == old(self).spec_peeker(),
            final(self).spec_pos() == old(self).spec_pos() + old(self).leb_advance(),
            match old(self).next_leb() {
                Some(s) => r == Some(sleb_value(s)) && final(self).spec_pos() == old(self).spec_pos()
                    + s.len(),
                None => r is None,
            },
    {
        match self.read_leb_bytes() {
            Some(v) => {
                let n = v.len();
                match get_sleb128(v.as_slice()) {
                    Some((val, m)) => {
                        proof { lemma_leb_complete_unique(v@, m as int); }
                        assert(v@.subrange(0, m as int) =~= v@);
                        Some(val)
                    },
                    None => {
                        assert(v@[n - 1] & 0x80 == 0);
                        assert(false);
                        None
                    },
                }
            },
            None => None,
        }
    }
}

impl<T: Peeker> DwarfReader<T> {
    /// The value of a fixed-size read of `n` bytes, when it succeeds.
    pub open spec fn fixed_value(&self, n: nat) -> Option<u64> {
        if self.fits(n) {
            opt_le(self.next_bytes(n))
        } else {
            None
        }
    }

    /// The value `read_with_encoding` decodes for `e` before applying its base,
    /// and the bytes it covers.
    pub open spec fn encoded(&self, e: Encoding) -> Option<(usize, nat)> {
        match e.format {
            Format::Pointer => match self.fixed_value(8) {
                Some(v) => Some((v as usize, 8)),
                None => None,
            },
            Format::UnsignedData2 => match self.fixed_value(2) {
                Some(v) => Some(((v as u16) as usize, 2)),
                None => None,
            },
            Format::UnsignedData4 => match self.fixed_value(4) {
                Some(v) => Some(((v as u32) as usize, 4)),
                None => None,
            },
            Format::UnsignedData8 => match self.fixed_value(8) {
                Some(v) => Some((v as usize, 8)),
                None => None,
            },
            Format::SignedData2 => match self.fixed_value(2) {
                Some(v) => Some((((v as u16) as i16) as usize, 2)),
                None => None,
            },
            Format::SignedData4 => match self.fixed_value(4) {
                Some(v) => Some((((v as u32) as i32) as usize, 4)),
                None => None,
            },
            Format::SignedData8 => match self.fixed_value(8) {
                Some(v) => Some(((v as i64) as usize, 8)),
                None => None,
            },
            Format::UnsignedData16 => match self.next_leb() {
                Some(s) => Some((uleb_value(s), s.len())),
                None => None,
            },
            Format::SignedData16 => match self.next_leb() {
                Some(s) => Some((sleb_value(s) as usize, s.len())),
                None => None,
            },
            Format::Unused => None,
        }
    }

    /// How many bytes a read with encoding `e` consumes, whether it succeeds
    /// or not.
    pub open spec fn encoded_advance(&self, e: Encoding) -> nat {
        let fixed = |n: nat| if self.fits(n) { n } else { 0 };
        match e.format {
            Format::Pointer => fixed(8),
            Format::UnsignedData2 => fixed(2),
            Format::UnsignedData4 => fixed(4),
            Format::UnsignedData8 => fixed(8),
            Format::SignedData2 => fixed(2),
            Format::SignedData4 => fixed(4),
            Format::SignedData8 => fixed(8),
            Format::UnsignedData16 => self.leb_advance(),
            Format::SignedData16 => self.leb_advance(),
            Format::Unused => 0,
        }
    }

    /// The base an encoded value is relative to.
    pub open spec fn encoding_base(&self, e: Encoding) -> usize {
        match e.application {
            Application::Absoulte => 0,
            Application::PcRelative => (self.spec_start() + self.spec_pos()) as usize,
            Application::DataRelative => self.spec_start(),
        }
    }

    /// Whether a read with encoding `e` can be carried out.
    pub open spec fn can_read_encoded(&self, e: Encoding) -> bool {
        &&& self.can_read(8)
        &&& self.can_read_leb()
        &&& self.spec_start() + self.spec_pos() <= usize::MAX
    }

    /// Read a value in the DWARF pointer encoding `encoding`.
    pub fn read_with_encoding(&mut self, encoding: Encoding) -> (r: Option<usize>)
        requires
            old(self).can_read_encoded(encoding),
        ensures
            final(self).spec_start() == old(self).spec_start(),
            final(self).spec_end() == old(self).spec_end(),
            final(self).spec_peeker() == old(self).spec_peeker(),
            final(self).spec_pos() == old(self).spec_pos() + old(self).encoded_advance(encoding),
            match old(self).encoded(encoding) {
                Some((v, n)) => r == Some(
                    vstd::wrapping::usize_specs::wrapping_add(old(self).encoding_base(encoding), v),
                ) && final(self).spec_pos() == old(self).spec_pos() + n,
                None => r is None,
            },
    {
        let base: usize = match encoding.application {
            Application::Absoulte => 0,
            Application::PcRelative => self.current(),
            Application::DataRelative => self.start,
        };
        let v: usize = match encoding.format {
            Format::Pointer => match self.read_u64() {
                Some(v) => v as usize,
                None => return None,
            },
            Format::UnsignedData16 => match self.read_uleb128() {
                Some(v) => v,
                None => return None,
            },
            Format::UnsignedData2 => match self.read_u16() {
                Some(v) => v as usize,
                None => return None,
            },
            Format::UnsignedData4 => match self.read_u32() {
                Some(v) => v as usize,
                None => return None,
            },
            Format::UnsignedData8 => match self.read_u64() {
                Some(v) => v as usize,
                None => return None,
            },
            Format::SignedData16 => match self.read_sleb128() {
                Some(v) => v as usize,
                None => return None,
            },
            Format::SignedData2 => match self.read_u16() {
                Some(v) => (v as i16) as usize,
                None => return None,
            },
            Format::SignedData4 => match self.read_u32() {
                Some(v) => (v as i32) as usize,
                None => return None,
            },
            Format::SignedData8 => match self.read_u64() {
                Some(v) => (v as i64) as usize,
                None => return None,
            },
            Format::Unused => return None,
        };
        Some(base.wrapping_add(v))
    }
}

/// LEB128 scanning depends only on the bytes a peeker sees.
pub proof fn lemma_leb_from_congruent<T: Peeker>(p: T, q: T, at: int, room: int, k: nat)
    requires
        forall|x: int| #[trigger] p.spec_peek(x) == q.spec_peek(x),
    ensures
        leb_from(p, at, room, k) == leb_from(q, at, room, k),
        leb_overlong(p, at, room) == leb_overlong(q, at, room),
    decreases 11 - k,
{
    assert(forall|j: int| #[trigger] p.spec_peek(at + j) == q.spec_peek(at + j));
    if leb_overlong(p, at, room) {
        assert forall|j: int| 0 <= j <= 10 implies (#[trigger] q.spec_peek(at + j)) is Some by {
            assert(p.spec_peek(at + j) is Some);
        }
        assert forall|j: int| 0 <= j < 10 implies (#[trigger] q.spec_peek(at + j))->0 & 0x80 == 0x80 by {
            assert(p.spec_peek(at + j)->0 & 0x80 == 0x80);
        }
    }
    if leb_overlong(q, at, room) {
        assert forall|j: int| 0 <= j <= 10 implies (#[trigger] p.spec_peek(at + j)) is Some by {
            assert(q.spec_peek(at + j) is Some);
        }
        assert forall|j: int| 0 <= j < 10 implies (#[trigger] p.spec_peek(at + j))->0 & 0x80 == 0x80 by {
            assert(q.spec_peek(at + j)->0 & 0x80 == 0x80);
        }
    }
    if k <= 10 && k + 1 <= room {
        assert(p.spec_peek(at + k) == q.spec_peek(at + k));
        if k < 10 {
            lemma_leb_from_congruent(p, q, at, room, k + 1);
        }
    }
}

/// Reading a range depends only on the bytes a peeker sees.
pub proof fn lemma_peek_range_congruent<T: Peeker>(p: T, q: T, at: int, n: nat)
    requires
        forall|x: int| #[trigger] p.spec_peek(x) == q.spec_peek(x),
    ensures
        peek_range(p, at, n) == peek_range(q, at, n),
{
    assert(forall|k: int| #[trigger] p.spec_peek(at + k) == q.spec_peek(at + k));
    if forall|k: int| 0 <= k < n ==> (#[trigger] p.spec_peek(at + k)) is Some {
        assert forall|k: int| 0 <= k < n implies (#[trigger] q.spec_peek(at + k)) is Some by {
            assert(p.spec_peek(at + k) is Some);
        }
        assert(Seq::new(n, |k: int| p.spec_peek(at + k)->0) =~= Seq::new(n, |k: int| q.spec_peek(at + k)->0));
    } else {
        let k = choose|k: int| 0 <= k < n && !((#[trigger] p.spec_peek(at + k)) is Some);
        assert(!(q.spec_peek(at + k) is Some));
    }
}

impl<T: Peeker> DwarfReader<T> {
    /// Two readers at the same place that see the same bytes decode the same values.
    pub proof fn lemma_congruent(a: Self, b: Self, e: Encoding)
        requires
            a.spec_start() == b.spec_start(),
            a.spec_pos() == b.spec_pos(),
            a.spec_end() == b.spec_end(),
            a.same_bytes(&b),
        ensures
            a.encoded(e) == b.encoded(e),
            a.can_read_encoded(e) == b.can_read_encoded(e),
            a.encoding_base(e) == b.encoding_base(e),
            forall|n: nat| #[trigger] a.fixed_value(n) == b.fixed_value(n),
    {
        let at = a.spec_start() + a.spec_pos();
        lemma_leb_from_congruent(a.spec_peeker(), b.spec_peeker(), at, a.spec_end() - a.spec_pos(), 0);
        assert forall|n: nat| #[trigger] a.fixed_value(n) == b.fixed_value(n) by {
            lemma_peek_range_congruent(a.spec_peeker(), b.spec_peeker(), at, n);
        }
    }

    /// Moving forward keeps two readers congruent.
    pub proof fn lemma_advanced_congruent(a: Self, b: Self, n: int)
        requires
            a.spec_start() == b.spec_start(),
            a.spec_pos() == b.spec_pos(),
            a.spec_end() == b.spec_end(),
            a.same_bytes(&b),
        ensures
            a.advanced(n).spec_start() == b.advanced(n).spec_start(),
            a.advanced(n).spec_pos() == b.advanced(n).spec_pos(),
            a.advanced(n).spec_end() == b.advanced(n).spec_end(),
            a.advanced(n).same_bytes(&b.advanced(n)),
    {
        a.lemma_advanced(n);
        b.lemma_advanced(n);
    }
}

/// Reading one byte yields the byte the peeker holds there.
pub proof fn lemma_one_byte<T: Peeker>(p: T, a: int)
    ensures
        opt_u8(opt_le(peek_range(p, a, 1))) == p.spec_peek(a),
{
    reveal_with_fuel(le_value, 2);
    match p.spec_peek(a) {
        Some(b) => {
            assert(p.spec_peek(a + 0) == Some(b));
            let s = Seq::new(1, |k: int| p.spec_peek(a + k)->0);
            assert(peek_range(p, a, 1) == Some(s));
            assert(s.drop_first() =~= Seq::<u8>::empty());
            assert(((b as u64) | (0u64 << 8u64)) as u8 == b) by (bit_vector);
        },
        None => {
            assert(p.spec_peek(a + 0) is None);
        },
    }
}

/// A complete LEB128 number has no complete proper prefix.
pub proof fn lemma_leb_complete_unique(s: Seq<u8>, m: int)
    requires
        leb_complete(s),
        0 < m <= s.len(),
        leb_complete(s.subrange(0, m)),
    ensures
        m == s.len(),
{
    if m < s.len() {
        assert(s.subrange(0, m)[m - 1] == s[m - 1]);
        assert(s[m - 1] & 0x80 == 0x80);
        let x = s[m - 1];
        assert(false) by (bit_vector)
            requires
                x & 0x80 == 0x80,
                x & 0x80 == 0,
        ;
    }
}

/// The little-endian `u64` at address `at` of what `p` sees, when its
/// eight bytes can be read.
pub fn peek_le_u64<T: Peeker>(p: &T, at: usize) -> (r: Option<u64>)
    requires
        at + 8 <= usize::MAX,
    ensures
        r == opt_le(peek_range(*p, at as int, 8)),
{
    let mut bytes: Vec<u8> = Vec::new();
    let mut k: usize = 0;
    while k < 8
        invariant
            k <= 8,
            at + 8 <= usize::MAX,
            bytes@.len() == k,
            forall|j: int| 0 <= j < k ==> p.spec_peek(at + j) == Some(#[trigger] bytes@[j]),
        decreases 8 - k,
    {
        match p.peek(at + k) {
            Some(b) => bytes.push(b),
            None => {
                assert(!(forall|j: int| 0 <= j < 8 ==> (#[trigger] p.spec_peek(at + j)) is Some));
                return None;
            },
        }
        k += 1;
    }
    assert(forall|j: int| 0 <= j < 8 ==> (#[trigger] p.spec_peek(at + j)) is Some) by {
        assert forall|j: int| 0 <= j < 8 implies (#[trigger] p.spec_peek(at + j)) is Some by {
            assert(p.spec_peek(at + j) == Some(bytes@[j]));
        }
    }
    assert(bytes@ =~= Seq::new(8, |j: int| p.spec_peek(at + j)->0));
    Some(le_fold(&bytes))
}

/// Folds little-endian bytes into a value.
fn le_fold(bytes: &Vec<u8>) -> (r: u64)
    requires
        bytes@.len() <= 8,
    ensures
        r == le_value(bytes@),
{
    let mut acc: u64 = 0;
    let mut i: usize = bytes.len();
    while i > 0
        invariant
            i <= bytes@.len(),
            bytes@.len() <= 8,
            acc == le_value(bytes@.subrange(i as int, bytes@.len() as int)),
        decreases i,
    {
        let ghost old_acc = acc;
        i -= 1;
        let ghost tail = bytes@.subrange(i as int, bytes@.len() as int);
        assert(tail.drop_first() =~= bytes@.subrange(i + 1, bytes@.len() as int));
        let b = bytes[i];
        acc = (b as u64) | (acc << 8u64);
    }
    assert(bytes@.subrange(0, bytes@.len() as int) =~= bytes@);
    acc
}

} // verus!
