//! A very simple file system.
//!
//! On-disk layout (sectors are 512 bytes):
//! - sector 0: the magic `"SIMPLEFS"` followed by the disk size (little-endian `u64`);
//! - from sector 1 on, a chain of segments. A segment starts with a header sector
//!   holding the name length (`u64`), the content size (`u64`) and the name bytes,
//!   followed by the content rounded up to whole sectors. A header whose name is
//!   empty marks a free segment.
//!
//! There are no directories; a file can be read and overwritten in place.
use vstd::prelude::*;
use crate::bytes::{
    copy_bytes, fill_bytes, get_u16, get_u32, get_u64, le_u16, le_u32, le_u64, lemma_u64_round_trip,
    overwrite, put_u16, put_u32, put_u64, u16_le_bytes, u32_le_bytes, u64_le_bytes,
};
use vstd::utf8::valid_utf8;
use vstd::string::StringSliceAdditionalSpecFns;

verus! {

/// Bytes in a sector.
pub const SECTOR_SIZE: usize = 512;

/// `core::str::Utf8Error`, the error `core::str::from_utf8` reports.
#[verifier::external_type_specification]
#[verifier::external_body]
pub struct ExUtf8Error(core::str::Utf8Error);

/// `core::str::from_utf8` accepts exactly the byte slices that are valid UTF-8,
/// and the string it returns has those bytes.
pub assume_specification<'a>[ core::str::from_utf8 ](v: &'a [u8]) -> (r: Result<
    &'a str,
    core::str::Utf8Error,
>)
    ensures
        r is Ok <==> valid_utf8(v@),
        r is Ok ==> r->Ok_0.spec_bytes() == v@,
;

/// Longest file name that fits in a header sector.
pub const MAX_NAME_LEN: usize = 496;

/// A byte buffer with little-endian accessors.
pub struct ByteRw {
    b: Vec<u8>,
}

impl View for ByteRw {
    type V = Seq<u8>;

    closed spec fn view(&self) -> Seq<u8> {
        self.b@
    }
}

impl ByteRw {
    /// Create a new ByteRw object over `b`.
    pub fn new(b: Vec<u8>) -> (r: Self)
        ensures
            r@ == b@,
    {
        Self { b }
    }

    /// Read u8 from position `p`.
    pub fn read_u8(&self, p: usize) -> (r: u8)
        requires
            p < self@.len(),
        ensures
            r == self@[p as int],
    {
        self.b[p]
    }

    /// Read u16 from position `p`.
    pub fn read_u16(&self, p: usize) -> (r: u16)
        requires
            p + 2 <= self@.len(),
        ensures
            r == le_u16(self@, p as int),
    {
        get_u16(self.b.as_slice(), p)
    }

    /// Read u32 from position `p`.
    pub fn read_u32(&self, p: usize) -> (r: u32)
        requires
            p + 4 <= self@.len(),
        ensures
            r == le_u32(self@, p as int),
    {
        get_u32(self.b.as_slice(), p)
    }

    /// Read u64 from position `p`.
    pub fn read_u64(&self, p: usize) -> (r: u64)
        requires
            p + 8 <= self@.len(),
        ensures
            r == le_u64(self@, p as int),
    {
        get_u64(self.b.as_slice(), p)
    }

    /// Write u8 at position `p`.
    pub fn write_u8(&mut self, p: usize, v: u8)
        requires
            p < old(self)@.len(),
        ensures
            final(self)@ == old(self)@.update(p as int, v),
    {
        self.b.set(p, v);
    }

    /// Write u16 at position `p`.
    pub fn write_u16(&mut self, p: usize, v: u16)
        requires
            p + 2 <= old(self)@.len(),
        ensures
            final(self)@ == overwrite(old(self)@, p as int, u16_le_bytes(v)),
    {
        put_u16(self.b.as_mut_slice(), p, v);
    }

    /// Write u32 at position `p`.
    pub fn write_u32(&mut self, p: usize, v: u32)
        requires
            p + 4 <= old(self)@.len(),
        ensures
            final(self)@ == overwrite(old(self)@, p as int, u32_le_bytes(v)),
    {
        put_u32(self.b.as_mut_slice(), p, v);
    }

    /// Write u64 at position `p`.
    pub fn write_u64(&mut self, p: usize, v: u64)
        requires
            p + 8 <= old(self)@.len(),
        ensures
            final(self)@ == overwrite(old(self)@, p as int, u64_le_bytes(v)),
    {
        put_u64(self.b.as_mut_slice(), p, v);
    }

    /// Get underlying buffer as reference.
    pub fn inner(&self) -> (r: &[u8])
        ensures
            r@ == self@,
    {
        self.b.as_slice()
    }

    /// Get underlying buffer as mutable reference.
    pub fn inner_mut(&mut self) -> (r: &mut Vec<u8>)
        ensures
            r@ == old(self)@,
            final(self)@ == final(r)@,
    {
        &mut self.b
    }

    /// Give back the underlying buffer.
    pub fn into_inner(self) -> (r: Vec<u8>)
        ensures
            r@ == self@,
    {
        self.b
    }
}

/// What a ByteRw read at `p` gives back after a write of `v` at `p`.
pub proof fn lemma_byte_rw_u64_round_trip(s: Seq<u8>, p: int, v: u64)
    requires
        0 <= p,
        p + 8 <= s.len(),
    ensures
        le_u64(overwrite(s, p, u64_le_bytes(v)), p) == v,
{
    lemma_u64_round_trip(v);
    let w = overwrite(s, p, u64_le_bytes(v));
    assert(forall|k: int| 0 <= k < 8 ==> w[p + k] == u64_le_bytes(v)[k]);
}

/// Sector index.
#[derive(Debug, Clone, Copy, PartialEq, Eq, Structural)]
pub struct Sector(pub usize);

impl Sector {
    /// Get offset that represented by the sector.
    pub fn into_offset(self) -> (r: usize)
        requires
            self.0 * 512 <= usize::MAX,
        ensures
            r == self.0 * 512,
    {
        self.0 * 512
    }

    /// Cast into usize.
    pub fn into_usize(self) -> (r: usize)
        ensures
            r == self.0,
    {
        self.0
    }
}

/// Possible error kinds.
#[derive(Debug, Clone, Copy, PartialEq, Eq, Structural)]
pub enum Error {
    /// Disk operation has an error.
    DiskError,
    /// File system operation has an error.
    FsError,
}

/// The 512 bytes of sector `s` of the byte image `d`.
pub open spec fn sector_bytes(d: Seq<u8>, s: int) -> Seq<u8> {
    d.subrange(s * 512, s * 512 + 512)
}

/// `n` zero bytes.
pub open spec fn zeros(n: nat) -> Seq<u8> {
    Seq::new(n, |_i: int| 0u8)
}

/// A device that has byte sink.
pub trait Disk {
    /// The bytes the disk holds.
    spec fn contents(&self) -> Seq<u8>;

    /// Whether a read of sector `s` succeeds (a failed read reports the
    /// disk's error).
    spec fn can_read(&self, s: usize) -> bool;

    /// Whether a write of sector `s` succeeds.
    spec fn can_write(&self, s: usize) -> bool;

    /// Read 512 bytes from disk starting from sector.
    fn read(&self, sector: Sector, buf: &mut [u8; 512]) -> (r: Result<(), Error>)
        ensures
            self.can_read(sector.0) <==> r is Ok,
            r is Ok ==> sector.0 * 512 + 512 <= self.contents().len() && final(buf)@
                == sector_bytes(self.contents(), sector.0 as int),
    ;

    /// Write 512 bytes to disk starting from sector. A write changes neither
    /// which sectors can be read nor which can be written.
    fn write(&mut self, sector: Sector, buf: &[u8; 512]) -> (r: Result<(), Error>)
        ensures
            old(self).can_write(sector.0) <==> r is Ok,
            forall|s: usize| #[trigger] final(self).can_read(s) == old(self).can_read(s),
            forall|s: usize| #[trigger] final(self).can_write(s) == old(self).can_write(s),
            r is Ok ==> sector.0 * 512 + 512 <= old(self).contents().len()
                && final(self).contents() == overwrite(
                old(self).contents(),
                sector.0 * 512,
                buf@,
            ),
    ;
}

/// A disk held in memory.
pub struct MemDisk {
    data: Vec<u8>,
}

impl MemDisk {
    /// A zero-filled disk of `sectors` sectors.
    pub fn new(sectors: usize) -> (r: MemDisk)
        requires
            sectors * 512 <= usize::MAX,
        ensures
            r.contents() == zeros((sectors * 512) as nat),
    {
        let n = sectors * 512;
        let mut data: Vec<u8> = Vec::new();
        let mut i: usize = 0;
        while i < n
            invariant
                i <= n,
                data@ == zeros(i as nat),
            decreases n - i,
        {
            data.push(0u8);
            i += 1;
        }
        MemDisk { data }
    }

    /// The bytes the disk holds.
    pub fn bytes(&self) -> (r: &[u8])
        ensures
            r@ == self.contents(),
    {
        self.data.as_slice()
    }
}

impl Disk for MemDisk {
    closed spec fn contents(&self) -> Seq<u8> {
        self.data@
    }

    closed spec fn can_read(&self, s: usize) -> bool {
        s * 512 + 512 <= self.data@.len()
    }

    closed spec fn can_write(&self, s: usize) -> bool {
        s * 512 + 512 <= self.data@.len()
    }

    fn read(&self, sector: Sector, buf: &mut [u8; 512]) -> (r: Result<(), Error>)
        ensures
            r is Ok <==> sector.0 * 512 + 512 <= self.contents().len(),
            r is Err ==> r == Err::<(), Error>(Error::DiskError),
    {
        let len = self.data.len();
        if sector.0 >= len / 512 {
            return Err(Error::DiskError);
        }
        let at = sector.0 * 512;
        copy_bytes(buf, 0, self.data.as_slice(), at, 512);
        assert(buf@ =~= sector_bytes(self.contents(), sector.0 as int));
        Ok(())
    }

    fn write(&mut self, sector: Sector, buf: &[u8; 512]) -> (r: Result<(), Error>)
        ensures
            r is Ok <==> sector.0 * 512 + 512 <= old(self).contents().len(),
            r is Err ==> r == Err::<(), Error>(Error::DiskError) && final(self).contents() == old(
                self,
            ).contents(),
    {
        let len = self.data.len();
        if sector.0 >= len / 512 {
            return Err(Error::DiskError);
        }
        let at = sector.0 * 512;
        copy_bytes(self.data.as_mut_slice(), at, buf, 0, 512);
        assert(buf@.subrange(0, 512) =~= buf@);
        Ok(())
    }
}


/// The magic bytes `"SIMPLEFS"` that open sector 0.
pub open spec fn magic() -> Seq<u8> {
    seq![0x53u8, 0x49u8, 0x4du8, 0x50u8, 0x4cu8, 0x45u8, 0x46u8, 0x53u8]
}

/// Sector 0 of a disk formatted with `size` bytes.
pub open spec fn superblock(size: usize) -> Seq<u8> {
    magic() + u64_le_bytes(size as u64) + zeros(496)
}

/// A segment header naming `name` with `size` content bytes.
pub open spec fn header_bytes(name: Seq<u8>, size: u64) -> Seq<u8> {
    u64_le_bytes(name.len() as u64) + u64_le_bytes(size) + name + zeros((496 - name.len()) as nat)
}

/// The disk image `d` after formatting a file system of `size` bytes on it:
/// the superblock, one free segment spanning the rest, and zeroed content.
pub open spec fn formatted(d: Seq<u8>, size: usize) -> Seq<u8> {
    Seq::new(
        d.len(),
        |i: int|
            if i < 512 {
                superblock(size)[i]
            } else if i < 1024 {
                header_bytes(seq![], (size - 1024) as u64)[i - 512]
            } else if i < (size / 512) * 512 {
                0u8
            } else {
                d[i]
            },
    )
}

/// Whether sector `pos` lies on the disk image `d`.
pub open spec fn readable(d: Seq<u8>, pos: int) -> bool {
    (pos + 1) * 512 <= d.len()
}

/// The name length recorded in the header at sector `pos`.
pub open spec fn header_name_len(d: Seq<u8>, pos: int) -> u64 {
    le_u64(sector_bytes(d, pos), 0)
}

/// The content size recorded in the header at sector `pos`.
pub open spec fn header_size(d: Seq<u8>, pos: int) -> u64 {
    le_u64(sector_bytes(d, pos), 8)
}

/// The name bytes recorded in the header at sector `pos`.
pub open spec fn header_name(d: Seq<u8>, pos: int) -> Seq<u8> {
    sector_bytes(d, pos).subrange(16, 16 + header_name_len(d, pos))
}

/// `x` rounded up to a multiple of 512 (within `u64`).
pub open spec fn round_up_u64(x: u64) -> u64 {
    (((x + 511) / 512) * 512) as u64
}

/// Bytes spanned by the content of the segment whose header is at `pos`.
pub open spec fn segment_bytes(d: Seq<u8>, pos: int) -> usize {
    round_up_u64(header_size(d, pos)) as usize
}

/// The sector of the header that follows the segment at `pos`.
pub open spec fn next_segment(d: Seq<u8>, pos: int) -> int {
    pos + 1 + segment_bytes(d, pos) / 512
}

/// Whether the scan for `name` from sector `pos` runs over sane headers only.
pub open spec fn lookup_sane(d: Seq<u8>, nsec: int, pos: int, name: Seq<u8>) -> bool
    decreases nsec - pos,
{
    if pos >= nsec || pos < 0 || !readable(d, pos) {
        true
    } else if header_name_len(d, pos) > 496 {
        false
    } else if !valid_utf8(header_name(d, pos)) || header_name(d, pos) == name {
        true
    } else if header_size(d, pos) > u64::MAX - 511 || next_segment(d, pos) > usize::MAX {
        false
    } else if next_segment(d, pos) >= nsec {
        true
    } else {
        lookup_sane(d, nsec, next_segment(d, pos), name)
    }
}

/// The header sector and size of the file `name`, scanning the segment chain
/// from sector `pos` over the first `nsec` sectors of `d`.
pub open spec fn lookup(d: Seq<u8>, nsec: int, pos: int, name: Seq<u8>) -> Option<(int, u64)>
    decreases nsec - pos,
{
    if pos >= nsec || pos < 0 || !readable(d, pos) || header_name_len(d, pos) > 496 {
        None
    } else if !valid_utf8(header_name(d, pos)) {
        None
    } else if header_name(d, pos) == name {
        Some((pos, header_size(d, pos)))
    } else if header_size(d, pos) > u64::MAX - 511 || next_segment(d, pos) >= nsec {
        None
    } else {
        proof {
            assert(next_segment(d, pos) > pos);
        }
        lookup(d, nsec, next_segment(d, pos), name)
    }
}

/// Whether the scan for a free segment from sector `pos` runs over sane headers only.
pub open spec fn slot_sane(d: Seq<u8>, nsec: int, pos: int, required: usize) -> bool
    decreases nsec - pos,
{
    if pos >= nsec || pos < 0 || !readable(d, pos) {
        true
    } else if header_size(d, pos) > u64::MAX - 511 {
        false
    } else if header_name_len(d, pos) == 0 && segment_bytes(d, pos) >= required {
        true
    } else if next_segment(d, pos) > usize::MAX {
        false
    } else if next_segment(d, pos) >= nsec {
        true
    } else {
        slot_sane(d, nsec, next_segment(d, pos), required)
    }
}

/// The first free segment of at least `required` content bytes, scanning from
/// sector `pos`: its header sector and its content span.
pub open spec fn find_slot(d: Seq<u8>, nsec: int, pos: int, required: usize) -> Option<(int, usize)>
    decreases nsec - pos,
{
    if pos >= nsec || pos < 0 || !readable(d, pos) || header_size(d, pos) > u64::MAX - 511 {
        None
    } else if header_name_len(d, pos) == 0 && segment_bytes(d, pos) >= required {
        Some((pos, segment_bytes(d, pos)))
    } else if next_segment(d, pos) >= nsec {
        None
    } else {
        proof {
            assert(next_segment(d, pos) > pos);
        }
        find_slot(d, nsec, next_segment(d, pos), required)
    }
}

/// `n` rounded up to a multiple of 512.
pub open spec fn round_up_512(n: int) -> int {
    ((n + 511) / 512) * 512
}

/// The disk image after storing the file `name` with `contents` in the free
/// segment whose header is at `pos` and whose content spans `seg` bytes.
pub open spec fn create_image(d: Seq<u8>, pos: int, seg: int, name: Seq<u8>, contents: Seq<u8>) -> Seq<u8> {
    let required = round_up_512(contents.len() as int);
    let split = if seg != required {
        overwrite(
            d,
            (pos + 1 + required / 512) * 512,
            header_bytes(seq![], (seg - required - 512) as u64),
        )
    } else {
        d
    };
    let stored = overwrite(split, (pos + 1) * 512, contents + zeros((required - contents.len()) as nat));
    overwrite(stored, pos * 512, header_bytes(name, contents.len() as u64))
}

/// Whether `d2` holds the bytes of `d` everywhere but in `[lo, hi)`.
pub open spec fn same_outside(d: Seq<u8>, d2: Seq<u8>, lo: int, hi: int) -> bool {
    &&& d2.len() == d.len()
    &&& forall|i: int| 0 <= i < d.len() && !(lo <= i < hi) ==> #[trigger] d2[i] == d[i]
}

/// Rounds `x` up to a multiple of 512.
fn round_up_seg(x: u64) -> (r: u64)
    requires
        x <= u64::MAX - 511,
    ensures
        r == round_up_u64(x),
        (r as usize) % 512 == 0,
{
    let r = (x + 511) & !511u64;
    assert(r == (((x + 511) / 512) * 512) as u64 && (r as usize) % 512 == 0) by (bit_vector)
        requires
            x <= 0xffff_ffff_ffff_fe00u64,
            r == ((x + 511) as u64) & !511u64,
    ;
    r
}

/// What a header sector tells a scan for a file name.
#[derive(Copy, Clone, Debug, PartialEq, Eq, Structural)]
pub enum HeaderStep {
    /// The header names the file; the content size it records.
    Found(u64),
    /// The header's name is not valid UTF-8: the scan stops without a file.
    BadName,
    /// The header names another file; the bytes its content spans.
    Next(usize),
}

/// The name bytes recorded in a header sector `h`.
pub open spec fn sector_name(h: Seq<u8>) -> Seq<u8> {
    h.subrange(16, 16 + le_u64(h, 0))
}

/// What the header sector `h` tells a scan for `name`.
pub open spec fn header_step_spec(h: Seq<u8>, name: Seq<u8>) -> HeaderStep {
    if !valid_utf8(sector_name(h)) {
        HeaderStep::BadName
    } else if sector_name(h) == name {
        HeaderStep::Found(le_u64(h, 8))
    } else {
        HeaderStep::Next(round_up_u64(le_u64(h, 8)) as usize)
    }
}

/// Decides what the header sector `buf` tells a scan for `name`: the file
/// itself, a name that is not UTF-8, or the span of another file's segment.
pub fn header_step(buf: &[u8; 512], name: &[u8]) -> (r: HeaderStep)
    requires
        le_u64(buf@, 0) <= 496,
        valid_utf8(sector_name(buf@)) && sector_name(buf@) != name@ ==> le_u64(buf@, 8) <= u64::MAX
            - 511,
    ensures
        r == header_step_spec(buf@, name@),
{
    let len = get_u64(buf, 0) as usize;
    let fname = bytes_to_vec(buf, 16, len);
    assert(fname@ =~= sector_name(buf@));
    match core::str::from_utf8(fname.as_slice()) {
        Ok(_) => {},
        Err(_) => return HeaderStep::BadName,
    }
    if bytes_eq(fname.as_slice(), name) {
        return HeaderStep::Found(get_u64(buf, 8));
    }
    HeaderStep::Next(round_up_seg(get_u64(buf, 8)) as usize)
}

/// The root file system
pub struct FileSystem<T: Disk> {
    t: T,
    size: usize,
}

impl<T: Disk> FileSystem<T> {
    /// The bytes of the underlying disk.
    pub closed spec fn disk(&self) -> Seq<u8> {
        self.t.contents()
    }

    /// The size the file system was formatted with.
    pub closed spec fn fs_size(&self) -> usize {
        self.size
    }

    /// Number of sectors the file system spans.
    pub open spec fn num_sectors(&self) -> int {
        (self.fs_size() / 512) as int
    }

    /// Whether sector 0 holds the magic and the size the file system has, so
    /// that loading the disk again gives the same file system.
    pub open spec fn superblock_ok(&self) -> bool {
        &&& 512 <= self.disk().len()
        &&& self.disk().subrange(0, 8) == magic()
        &&& le_u64(self.disk(), 8) as usize == self.fs_size()
    }

    /// Whether the disk serves a read of sector `s`.
    pub closed spec fn can_read(&self, s: usize) -> bool {
        self.t.can_read(s)
    }

    /// Whether the disk serves a write of sector `s`.
    pub closed spec fn can_write(&self, s: usize) -> bool {
        self.t.can_write(s)
    }

    /// Create a new file system to disk.
    pub fn new(t: T, size: usize) -> (r: Result<Self, Error>)
        requires
            size >= 1024,
        ensures
            r is Ok ==> r->Ok_0.fs_size() == size && (size / 512) * 512 <= t.contents().len()
                && r->Ok_0.disk() == formatted(t.contents(), size) && r->Ok_0.superblock_ok(),
            (forall|s: usize| s < size / 512 ==> #[trigger] t.can_write(s)) ==> r is Ok,
    {
        let ghost d0 = t.contents();
        let ghost t0 = t;
        let mut disk = t;
        let mut buf = [0u8; 512];
        buf[0] = 0x53;
        buf[1] = 0x49;
        buf[2] = 0x4d;
        buf[3] = 0x50;
        buf[4] = 0x4c;
        buf[5] = 0x45;
        buf[6] = 0x46;
        buf[7] = 0x53;
        put_u64(&mut buf, 8, size as u64);
        assert(buf@ =~= superblock(size));
        match disk.write(Sector(0), &buf) {
            Ok(()) => {},
            Err(e) => {
                assert(!t0.can_write(0));
                return Err(e);
            },
        }
        let mut this = Self { t: disk, size };
        proof {
            reveal_strlit("");
        }
        match this.write_file_header(Sector(1), "", size - 1024) {
            Ok(()) => {},
            Err(e) => {
                assert(!t0.can_write(1));
                return Err(e);
            },
        }
        let ghost d1 = this.t.contents();
        let zero = [0u8; 512];
        let n = size / 512;
        let mut i: usize = 2;
        while i < n
            invariant
                2 <= i,
                n == size / 512,
                size >= 1024,
                this.size == size,
                forall|s: usize| #[trigger] this.t.can_write(s) == t0.can_write(s),
                t0 == t,
                zero@ == zeros(512),
                i <= n || n < 2,
                this.t.contents().len() == d0.len(),
                1024 <= d0.len(),
                i * 512 <= d0.len(),
                forall|k: int|
                    0 <= k < d0.len() ==> #[trigger] this.t.contents()[k] == (if k < 512 {
                        superblock(size)[k]
                    } else if k < 1024 {
                        header_bytes(seq![], (size - 1024) as u64)[k - 512]
                    } else if k < i * 512 {
                        0u8
                    } else {
                        d0[k]
                    }),
            decreases n - i,
        {
            match this.t.write(Sector(i), &zero) {
                Ok(()) => {},
                Err(e) => {
                    assert(!t0.can_write(i));
                    return Err(e);
                },
            }
            i += 1;
        }
        assert(this.t.contents() =~= formatted(d0, size));
        proof {
            lemma_format_then_load(d0, size);
        }
        Ok(this)
    }

    /// Load a file system from disk
    pub fn load(t: T) -> (r: Result<Self, Error>)
        ensures
            r is Ok ==> 512 <= t.contents().len() && t.contents().subrange(0, 8) == magic()
                && r->Ok_0.disk() == t.contents() && r->Ok_0.fs_size() == le_u64(
                t.contents(),
                8,
            ) as usize,
            512 <= t.contents().len() && t.contents().subrange(0, 8) != magic() ==> r is Err,
            t.can_read(0) ==> 512 <= t.contents().len() && (r is Ok <==> t.contents().subrange(0, 8)
                == magic()) && (r is Err ==> r == Err::<Self, Error>(Error::FsError)),
            !t.can_read(0) ==> r is Err,
    {
        let mut buf = [0u8; 512];
        match t.read(Sector(0), &mut buf) {
            Ok(()) => {},
            Err(e) => {
                assert(!t.can_read(0));
                return Err(e);
            },
        }
        assert(buf@.subrange(0, 8) =~= t.contents().subrange(0, 8));
        if !(buf[0] == 0x53 && buf[1] == 0x49 && buf[2] == 0x4d && buf[3] == 0x50 && buf[4] == 0x4c
            && buf[5] == 0x45 && buf[6] == 0x46 && buf[7] == 0x53) {
            assert(buf@.subrange(0, 8) != magic()) by {
                if buf@.subrange(0, 8) == magic() {
                    assert(buf@[0] == buf@.subrange(0, 8)[0]);
                    assert(buf@[1] == buf@.subrange(0, 8)[1]);
                    assert(buf@[2] == buf@.subrange(0, 8)[2]);
                    assert(buf@[3] == buf@.subrange(0, 8)[3]);
                    assert(buf@[4] == buf@.subrange(0, 8)[4]);
                    assert(buf@[5] == buf@.subrange(0, 8)[5]);
                    assert(buf@[6] == buf@.subrange(0, 8)[6]);
                    assert(buf@[7] == buf@.subrange(0, 8)[7]);
                }
            }
            return Err(Error::FsError);
        }
        assert(buf@.subrange(0, 8) =~= magic());
        let size = get_u64(&buf, 8) as usize;
        assert(le_u64(buf@, 8) == le_u64(t.contents(), 8));
        Ok(Self { t, size })
    }

    fn write_file_header(&mut self, sector: Sector, name: &str, size: usize) -> (r: Result<(), Error>)
        ensures
            final(self).size == old(self).size,
            name.spec_bytes().len() > 496 ==> r == Err::<(), Error>(Error::FsError)
                && final(self).disk() == old(self).disk(),
            name.spec_bytes().len() <= 496 && old(self).can_write(sector.0) ==> r is Ok,
            forall|s: usize| #[trigger] final(self).t.can_read(s) == old(self).t.can_read(s),
            forall|s: usize| #[trigger] final(self).t.can_write(s) == old(self).t.can_write(s),
            r is Ok ==> name.spec_bytes().len() <= 496 && sector.0 * 512 + 512 <= old(
                self,
            ).disk().len() && final(self).disk() == overwrite(
                old(self).disk(),
                sector.0 * 512,
                header_bytes(name.spec_bytes(), size as u64),
            ),
    {
        let name_bytes = name.as_bytes();
        let name_len = name_bytes.len();
        if name_len > 512 - 16 {
            return Err(Error::FsError);
        }
        let mut buf = [0u8; 512];
        put_u64(&mut buf, 0, name_len as u64);
        put_u64(&mut buf, 8, size as u64);
        copy_bytes(&mut buf, 16, name_bytes, 0, name_len);
        assert(name_bytes@.subrange(0, name_len as int) =~= name_bytes@);
        assert(buf@ =~= header_bytes(name.spec_bytes(), size as u64));
        self.t.write(sector, &buf)
    }

    /// Open a file with `name`.
    pub fn open(&self, name: &str) -> (r: Option<File>)
        requires
            lookup_sane(self.disk(), self.num_sectors(), 1, name.spec_bytes()),
        ensures
            name.spec_bytes().len() == 0 ==> r is None,
            r is Some ==> name.spec_bytes().len() > 0 && r->0.spec_name() == name@
                && 1 <= r->0.spec_start() < self.num_sectors() && match lookup(
                self.disk(),
                self.num_sectors(),
                1,
                name.spec_bytes(),
            ) {
                Some((p, sz)) => r->0.spec_start() == p && r->0.spec_size() == sz as usize,
                None => false,
            },
            name.spec_bytes().len() > 0 && lookup(
                self.disk(),
                self.num_sectors(),
                1,
                name.spec_bytes(),
            ) is None ==> r is None,
            name.spec_bytes().len() > 0 && (forall|s: usize|
                1 <= s < self.num_sectors() ==> #[trigger] self.can_read(s)) ==> (r is Some
                <==> lookup(self.disk(), self.num_sectors(), 1, name.spec_bytes()) is Some),
    {
        let name_bytes = name.as_bytes();
        if name_bytes.len() == 0 {
            return None;
        }
        let ghost d = self.disk();
        let ghost nm = name.spec_bytes();
        let nsec = self.size / 512;
        let mut buf = [0u8; 512];
        let mut pos: usize = 1;
        while pos < nsec
            invariant
                1 <= pos,
                nsec == self.size / 512,
                d == self.disk(),
                nm == name.spec_bytes(),
                nm == name_bytes@,
                nm.len() > 0,
                lookup(d, nsec as int, 1, nm) == lookup(d, nsec as int, pos as int, nm),
                lookup_sane(d, nsec as int, pos as int, nm),
            decreases usize::MAX - pos,
        {
            match self.t.read(Sector(pos), &mut buf) {
                Ok(()) => {},
                Err(_) => {
                    assert(!self.can_read(pos));
                    return None;
                },
            }
            assert(buf@ == sector_bytes(d, pos as int));
            assert(sector_name(buf@) == header_name(d, pos as int));
            match header_step(&buf, name_bytes) {
                HeaderStep::Found(size) => {
                    return Some(File { name: name.to_owned(), size: size as usize, start_sector: Sector(pos) });
                },
                HeaderStep::BadName => return None,
                HeaderStep::Next(seg) => {
                    pos = pos + 1 + seg / 512;
                },
            }
        }
        None
    }

    /// Create a file that contains `contents`.
    pub fn create(&mut self, name: &str, contents: &[u8]) -> (r: Result<(), Error>)
        requires
            contents@.len() + 511 <= usize::MAX,
            name.spec_bytes().len() > 0 ==> slot_sane(
                old(self).disk(),
                old(self).num_sectors(),
                1,
                round_up_512(contents@.len() as int) as usize,
            ),
        ensures
            final(self).fs_size() == old(self).fs_size(),
            old(self).superblock_ok() && r is Ok ==> final(self).superblock_ok(),
            name.spec_bytes().len() == 0 ==> r == Err::<(), Error>(Error::FsError) && final(self).disk()
                == old(self).disk(),
            r is Ok ==> match find_slot(
                old(self).disk(),
                old(self).num_sectors(),
                1,
                round_up_512(contents@.len() as int) as usize,
            ) {
                Some((pos, seg)) => name.spec_bytes().len() <= 496 && final(self).disk()
                    == create_image(old(self).disk(), pos, seg as int, name.spec_bytes(), contents@),
                None => false,
            },
            name.spec_bytes().len() > 0 && find_slot(
                old(self).disk(),
                old(self).num_sectors(),
                1,
                round_up_512(contents@.len() as int) as usize,
            ) is None ==> r is Err,
            0 < name.spec_bytes().len() <= 496 && (forall|s: usize|
                1 <= s < old(self).num_sectors() ==> #[trigger] old(self).can_read(s)) ==> match find_slot(
                old(self).disk(),
                old(self).num_sectors(),
                1,
                round_up_512(contents@.len() as int) as usize,
            ) {
                Some((pos, seg)) => (forall|s: usize|
                    pos <= s <= pos + seg / 512 ==> #[trigger] old(self).can_write(s)) ==> r is Ok,
                None => r is Err,
            },
            name.spec_bytes().len() > 0 && (forall|s: usize|
                1 <= s < old(self).num_sectors() ==> #[trigger] old(self).can_read(s)) ==> match find_slot(
                old(self).disk(),
                old(self).num_sectors(),
                1,
                round_up_512(contents@.len() as int) as usize,
            ) {
                Some((pos, seg)) => name.spec_bytes().len() > 496 && (forall|s: usize|
                    pos <= s <= pos + seg / 512 ==> #[trigger] old(self).can_write(s)) ==> r == Err::<
                    (),
                    Error,
                >(Error::FsError) && same_outside(
                    old(self).disk(),
                    final(self).disk(),
                    (pos + 1) * 512,
                    next_segment(old(self).disk(), pos) * 512,
                ),
                None => r == Err::<(), Error>(Error::FsError) && final(self).disk() == old(self).disk(),
            },
    {
        let name_bytes = name.as_bytes();
        if name_bytes.len() == 0 {
            return Err(Error::FsError);
        }
        let ghost d = self.disk();
        let ghost nm = name.spec_bytes();
        let file_size = contents.len();
        let required = round_up_len(file_size);
        let nsec = self.size / 512;
        let mut buf = [0u8; 512];
        let mut pos: usize = 1;
        while pos < nsec
            invariant
                1 <= pos,
                nsec == self.size / 512,
                d == self.disk(),
                nm == name.spec_bytes(),
                nm.len() > 0,
                file_size == contents@.len(),
                file_size + 511 <= usize::MAX,
                required == round_up_512(file_size as int),
                self.size == old(self).size,
                d == old(self).disk(),
                find_slot(d, nsec as int, 1, required) == find_slot(d, nsec as int, pos as int, required),
                slot_sane(d, nsec as int, pos as int, required),
                *self == *old(self),
            decreases usize::MAX - pos,
        {
            match self.t.read(Sector(pos), &mut buf) {
                Ok(()) => {},
                Err(e) => {
                    assert(!old(self).can_read(pos));
                    return Err(e);
                },
            }
            let seg = round_up_seg(get_u64(&buf, 8)) as usize;
            assert(seg == segment_bytes(d, pos as int));
            if get_u64(&buf, 0) == 0 && seg >= required {
                assert(header_name_len(d, pos as int) == 0);
                assert(find_slot(d, nsec as int, pos as int, required) == Some((pos as int, seg)));
                assert((pos + 1) * 512 + seg == next_segment(d, pos as int) * 512);
                let r = self.store(pos, seg, name, contents, Ghost(d));
                proof {
                    if r is Ok && old(self).superblock_ok() {
                        lemma_create_image_keeps_front(d, pos as int, seg as int, name.spec_bytes(), contents@, 0);
                        lemma_front_kept(d, self.disk());
                    }
                }
                return r;
            }
            pos = pos + 1 + seg / 512;
        }
        Err(Error::FsError)
    }

    /// Stores `name` and `contents` into the free segment whose header is at
    /// `pos` and whose content spans `seg` bytes.
    fn store(&mut self, pos: usize, seg: usize, name: &str, contents: &[u8], Ghost(d): Ghost<Seq<u8>>) -> (r: Result<(), Error>)
        requires
            d == old(self).disk(),
            readable(d, pos as int),
            pos < old(self).size / 512,
            contents@.len() + 511 <= usize::MAX,
            seg >= round_up_512(contents@.len() as int),
            seg % 512 == 0,
        ensures
            final(self).fs_size() == old(self).fs_size(),
            name.spec_bytes().len() > 496 ==> r is Err,
            name.spec_bytes().len() > 496 && contents@.len() == 0 && seg == 0 ==> r == Err::<(), Error>(
                Error::FsError,
            ) && final(self).disk() == old(self).disk(),
            name.spec_bytes().len() <= 496 && (forall|s: usize|
                pos <= s <= pos + seg / 512 ==> #[trigger] old(self).can_write(s)) ==> r is Ok,
            name.spec_bytes().len() > 496 && (forall|s: usize|
                pos <= s <= pos + seg / 512 ==> #[trigger] old(self).can_write(s)) ==> r == Err::<
                (),
                Error,
            >(Error::FsError) && same_outside(d, final(self).disk(), (pos + 1) * 512, (pos + 1) * 512 + seg),
            r is Ok ==> name.spec_bytes().len() <= 496 && final(self).disk() == create_image(
                d,
                pos as int,
                seg as int,
                name.spec_bytes(),
                contents@,
            ),
    {
        let file_size = contents.len();
        let required = round_up_len(file_size);
        let ghost d1 = if seg != required {
            overwrite(d, (pos + 1 + required / 512) * 512, header_bytes(seq![], (seg - required - 512) as u64))
        } else {
            d
        };
        if seg != required {
            let nseg_size = seg - required - 512;
            proof {
                reveal_strlit("");
            }
            match self.write_file_header(Sector(pos + 1 + required / 512), "", nseg_size) {
                Ok(()) => {},
                Err(e) => {
                    assert(!old(self).can_write((pos + 1 + required / 512) as usize));
                    return Err(e);
                },
            }
        }
        assert(self.disk() == d1);
        let ghost base = (pos + 1) * 512;
        let mut buf = [0u8; 512];
        let nfull = file_size / 512;
        let mut k: usize = 0;
        while k < nfull
            invariant
                k <= nfull,
                nfull == file_size / 512,
                file_size == contents@.len(),
                pos < self.size / 512,
                base == (pos + 1) * 512,
                self.size == old(self).size,
                self.disk().len() == d1.len(),
                seg >= round_up_512(contents@.len() as int),
                seg % 512 == 0,
                forall|s: usize| #[trigger] self.t.can_write(s) == old(self).t.can_write(s),
                forall|i: int|
                    0 <= i < d1.len() ==> #[trigger] self.disk()[i] == (if base <= i < base + k * 512 {
                        contents@[i - base]
                    } else {
                        d1[i]
                    }),
            decreases nfull - k,
        {
            copy_bytes(&mut buf, 0, contents, k * 512, 512);
            match self.t.write(Sector(pos + 1 + k), &buf) {
                Ok(()) => {},
                Err(e) => {
                    assert(!old(self).t.can_write((pos + 1 + k) as usize));
                    assert(!old(self).can_write((pos + 1 + k) as usize));
                    return Err(e);
                },
            }
            k += 1;
        }
        let rem = file_size % 512;
        if rem != 0 {
            copy_bytes(&mut buf, 0, contents, nfull * 512, rem);
            fill_bytes(&mut buf, rem, 512 - rem, 0);
            match self.t.write(Sector(pos + 1 + nfull), &buf) {
                Ok(()) => {},
                Err(e) => {
                    assert(!old(self).t.can_write((pos + 1 + nfull) as usize));
                    assert(!old(self).can_write((pos + 1 + nfull) as usize));
                    return Err(e);
                },
            }
        }
        let ghost d2 = self.disk();
        assert(d2 =~= overwrite(d1, base, contents@ + zeros((required - file_size) as nat)));
        match self.write_file_header(Sector(pos), name, file_size) {
            Ok(()) => {},
            Err(e) => {
                assert(!old(self).can_write(pos) || name.spec_bytes().len() > 496);
                proof {
                    if name.spec_bytes().len() > 496 {
                        assert(self.disk() == d2);
                        assert forall|i: int|
                            0 <= i < d.len() && !(base <= i < base + seg) implies #[trigger] d2[i]
                            == d[i] by {
                            assert(d1[i] == d[i]);
                        }
                    }
                }
                return Err(e);
            },
        }
        assert(self.disk() =~= create_image(d, pos as int, seg as int, name.spec_bytes(), contents@));
        Ok(())
    }

    /// Close this filesystem.
    pub fn close(self) -> (r: T)
        ensures
            r.contents() == self.disk(),
    {
        self.t
    }
}

/// Rounds a length up to a multiple of 512.
fn round_up_len(n: usize) -> (r: usize)
    requires
        n + 511 <= usize::MAX,
    ensures
        r == round_up_512(n as int),
        r % 512 == 0,
{
    let r = (n + 511) & !511usize;
    assert(r == ((n + 511) / 512) * 512) by (bit_vector)
        requires
            ((n + 511) as usize) >= n,
            r == ((n + 511) as usize) & !511usize,
    ;
    r
}

/// The bytes `b[from..from + n]` as a vector.
fn bytes_to_vec(b: &[u8], from: usize, n: usize) -> (r: Vec<u8>)
    requires
        from + n <= b@.len(),
    ensures
        r@ == b@.subrange(from as int, from + n),
{
    let _len = b.len();
    let end = from + n;
    let mut v: Vec<u8> = Vec::new();
    let mut i: usize = 0;
    while i < n
        invariant
            i <= n,
            end == from + n,
            from + n <= b@.len(),
            v@ == b@.subrange(from as int, from + i),
        decreases n - i,
    {
        v.push(b[from + i]);
        i += 1;
        assert(v@ =~= b@.subrange(from as int, from + i));
    }
    v
}

/// Whether two byte slices are equal.
fn bytes_eq(a: &[u8], b: &[u8]) -> (r: bool)
    ensures
        r == (a@ == b@),
{
    if a.len() != b.len() {
        return false;
    }
    let mut i: usize = 0;
    while i < a.len()
        invariant
            i <= a@.len(),
            a@.len() == b@.len(),
            forall|k: int| 0 <= k < i ==> a@[k] == b@[k],
        decreases a@.len() - i,
    {
        if a[i] != b[i] {
            return false;
        }
        i += 1;
    }
    assert(a@ =~= b@);
    true
}

/// The file.
pub struct File {
    name: String,
    size: usize,
    start_sector: Sector,
}

impl File {
    /// The file name.
    pub closed spec fn spec_name(&self) -> Seq<char> {
        self.name@
    }

    /// The file size.
    pub closed spec fn spec_size(&self) -> usize {
        self.size
    }

    /// The sector of the file's header.
    pub closed spec fn spec_start(&self) -> usize {
        self.start_sector.0
    }

    /// Byte position on the disk where the file's content starts.
    pub open spec fn data_start(&self) -> int {
        (self.spec_start() + 1) * 512
    }

    /// Get name of this file.
    pub fn name(&self) -> (r: &str)
        ensures
            r@ == self.spec_name(),
    {
        self.name.as_str()
    }

    /// Get size of this file.
    pub fn size(&self) -> (r: usize)
        ensures
            r == self.spec_size(),
    {
        self.size
    }
}


/// `a - b`, or 0 when `b > a`.
pub open spec fn saturating_sub(a: usize, b: usize) -> usize {
    if a >= b {
        (a - b) as usize
    } else {
        0
    }
}

/// The number of bytes a read or write of `buf_len` bytes at `ofs` covers in `file`.
pub open spec fn io_len(file: File, ofs: usize, buf_len: nat) -> int {
    let avail = saturating_sub(file.spec_size(), ofs) as int;
    if buf_len < avail {
        buf_len as int
    } else {
        avail
    }
}

/// The disk image after writing `data` at byte position `a`: those bytes hold
/// `data`, and every other byte is unchanged.
pub open spec fn file_write_image(d: Seq<u8>, a: int, data: Seq<u8>) -> Seq<u8> {
    overwrite(d, a, data)
}

impl File {
    /// Whether the disk serves a read of every sector that I/O at `ofs`
    /// touches: the file's content sectors, and the sector holding `ofs`.
    pub open spec fn sectors_readable<T: Disk>(&self, fs: &FileSystem<T>, ofs: usize) -> bool {
        &&& forall|s: usize|
            self.spec_start() + 1 <= s < self.spec_start() + 2 + self.spec_size() / 512
                ==> #[trigger] fs.can_read(s)
        &&& (ofs % 512 != 0 ==> fs.can_read((self.spec_start() + 1 + ofs / 512) as usize))
    }

    /// Whether the disk serves a write of every sector that I/O at `ofs`
    /// touches.
    pub open spec fn sectors_writable<T: Disk>(&self, fs: &FileSystem<T>, ofs: usize) -> bool {
        &&& forall|s: usize|
            self.spec_start() + 1 <= s < self.spec_start() + 2 + self.spec_size() / 512
                ==> #[trigger] fs.can_write(s)
        &&& (ofs % 512 != 0 ==> fs.can_write((self.spec_start() + 1 + ofs / 512) as usize))
    }
}

impl File {
    /// Read from file starting from `ofs` to `contents`.
    pub fn read<T: Disk>(&self, fs: &FileSystem<T>, ofs: usize, contents: &mut [u8]) -> (r: Result<
        usize,
        Error,
    >)
        requires
            self.spec_start() + 2 + self.spec_size() / 512 <= usize::MAX,
            self.spec_start() + 1 + ofs / 512 <= usize::MAX,
        ensures
            final(contents)@.len() == old(contents)@.len(),
            self.sectors_readable(fs, ofs) ==> r is Ok,
            ofs % 512 == 0 && io_len(*self, ofs, old(contents)@.len()) == 0 ==> r == Ok::<usize, Error>(0)
                && final(contents)@ == old(contents)@,
            r is Ok ==> ({
                let n = io_len(*self, ofs, old(contents)@.len());
                &&& r->Ok_0 == n
                &&& n > 0 ==> self.data_start() + ofs + n <= fs.disk().len()
                    && final(contents)@.subrange(0, n) == fs.disk().subrange(
                    self.data_start() + ofs,
                    self.data_start() + ofs + n,
                )
                &&& final(contents)@.subrange(n, old(contents)@.len() as int) == old(
                    contents,
                )@.subrange(n, old(contents)@.len() as int)
            }),
    {
        let clen = contents.len();
        let avail = if self.size >= ofs {
            self.size - ofs
        } else {
            0
        };
        let len = if clen < avail {
            clen
        } else {
            avail
        };
        let ghost d = fs.disk();
        let ghost base = self.data_start();
        let mut buf = [0u8; 512];
        let start = self.start_sector.0;
        let mut done: usize = 0;
        if ofs % 512 != 0 {
            let sector = start + 1 + ofs / 512;
            match fs.t.read(Sector(sector), &mut buf) {
                Ok(()) => {},
                Err(e) => {
                    assert(!fs.can_read(sector));
                    return Err(e);
                },
            }
            let o = ofs % 512;
            let this_len = if 512 - o < len {
                512 - o
            } else {
                len
            };
            assert(sector * 512 + o == base + ofs);
            copy_bytes(contents, 0, &buf, o, this_len);
            done = this_len;
        }
        while done < len
            invariant
                done <= len,
                len <= clen,
                clen == old(contents)@.len(),
                contents@.len() == clen,
                len == io_len(*self, ofs, clen as nat),
                start == self.spec_start(),
                base == self.data_start(),
                d == fs.disk(),
                ofs + len <= self.spec_size() || len == 0,
                start + 2 + self.spec_size() / 512 <= usize::MAX,
                done < len ==> (ofs + done) % 512 == 0,
                done > 0 ==> base + ofs + done <= d.len(),
                forall|k: int|
                    0 <= k < clen ==> #[trigger] contents@[k] == (if k < done {
                        d[base + ofs + k]
                    } else {
                        old(contents)@[k]
                    }),
            decreases len - done,
        {
            let sector = start + 1 + (ofs + done) / 512;
            proof {
                vstd::arithmetic::div_mod::lemma_div_is_ordered(
                    (ofs + done) as int,
                    self.spec_size() as int,
                    512,
                );
            }
            match fs.t.read(Sector(sector), &mut buf) {
                Ok(()) => {},
                Err(e) => {
                    assert(!fs.can_read(sector));
                    assert(start + 1 <= sector < start + 2 + self.spec_size() / 512);
                    return Err(e);
                },
            }
            let chunk = if len - done < 512 {
                len - done
            } else {
                512
            };
            assert(sector * 512 == base + ofs + done);
            copy_bytes(contents, done, &buf, 0, chunk);
            done = done + chunk;
        }
        if len > 0 {
            assert(contents@.subrange(0, len as int) =~= d.subrange(base + ofs, base + ofs + len));
        }
        assert(contents@.subrange(len as int, clen as int) =~= old(contents)@.subrange(
            len as int,
            clen as int,
        ));
        Ok(len)
    }
}

impl File {
    /// Write to file starting from `ofs` from `contents`.
    #[verifier::spinoff_prover]
    #[verifier::rlimit(60)]
    pub fn write<T: Disk>(&self, fs: &mut FileSystem<T>, ofs: usize, contents: &[u8]) -> (r: Result<
        usize,
        Error,
    >)
        requires
            self.spec_start() + 2 + self.spec_size() / 512 <= usize::MAX,
            self.spec_start() + 1 + ofs / 512 <= usize::MAX,
        ensures
            final(fs).fs_size() == old(fs).fs_size(),
            self.spec_start() >= 1 && old(fs).superblock_ok() && r is Ok ==> final(fs).superblock_ok(),
            self.sectors_readable(&*old(fs), ofs) && self.sectors_writable(&*old(fs), ofs) ==> r is Ok,
            ofs % 512 == 0 && io_len(*self, ofs, contents@.len()) == 0 ==> r == Ok::<usize, Error>(0)
                && final(fs).disk() == old(fs).disk(),
            r is Ok ==> ({
                let n = io_len(*self, ofs, contents@.len());
                &&& r->Ok_0 == n
                &&& final(fs).disk() == file_write_image(
                    old(fs).disk(),
                    self.data_start() + ofs,
                    contents@.subrange(0, n),
                )
            }),
    {
        let clen = contents.len();
        let avail = if self.size >= ofs {
            self.size - ofs
        } else {
            0
        };
        let len = if clen < avail {
            clen
        } else {
            avail
        };
        let ghost d = fs.disk();
        let ghost base = self.data_start();
        let ghost a = base + ofs;
        let ghost data = contents@.subrange(0, len as int);
        let mut buf = [0u8; 512];
        let start = self.start_sector.0;
        let sofs = if ofs % 512 != 0 {
            512 - ofs % 512
        } else {
            0
        };
        assert(a % 512 == ofs % 512);
        if ofs % 512 != 0 {
            let sector = start + 1 + ofs / 512;
            match fs.t.read(Sector(sector), &mut buf) {
                Ok(()) => {},
                Err(e) => {
                    assert(!fs.can_read(sector));
                    return Err(e);
                },
            }
            let o = ofs % 512;
            let this_len = if sofs < len {
                sofs
            } else {
                len
            };
            assert(sector * 512 + o == a);
            copy_bytes(&mut buf, o, contents, 0, this_len);
            match fs.t.write(Sector(sector), &buf) {
                Ok(()) => {},
                Err(e) => {
                    assert(!old(fs).t.can_write(sector));
                    assert(!old(fs).can_write(sector));
                    return Err(e);
                },
            }
            if len <= sofs {
                assert(fs.disk() =~= file_write_image(d, a, data));
                proof {
                    if self.spec_start() >= 1 && old(fs).superblock_ok() {
                        lemma_write_keeps_front(d, a, data);
                    }
                }
                return Ok(len);
            }
        }
        if len <= sofs {
            assert(fs.disk() =~= file_write_image(d, a, data));
            proof {
                if self.spec_start() >= 1 && old(fs).superblock_ok() {
                    lemma_write_keeps_front(d, a, data);
                }
            }
            return Ok(len);
        }
        let mut done: usize = sofs;
        while len - done >= 512
            invariant
                sofs <= done <= len,
                len <= clen,
                clen == contents@.len(),
                len == io_len(*self, ofs, clen as nat),
                data == contents@.subrange(0, len as int),
                start == self.spec_start(),
                base == self.data_start(),
                a == base + ofs,
                a % 512 == ofs % 512,
                sofs == (if a % 512 != 0 { 512 - a % 512 } else { 0 }),
                sofs < len,
                ofs + len <= self.spec_size(),
                start + 2 + self.spec_size() / 512 <= usize::MAX,
                (ofs + done) % 512 == 0,
                fs.fs_size() == old(fs).fs_size(),
                fs.disk().len() == d.len(),
                forall|s: usize| #[trigger] fs.t.can_read(s) == old(fs).t.can_read(s),
                forall|s: usize| #[trigger] fs.t.can_write(s) == old(fs).t.can_write(s),
                done > 0 ==> a + done <= d.len(),
                forall|i: int|
                    0 <= i < d.len() ==> #[trigger] fs.disk()[i] == (if a <= i < a + done {
                        data[i - a]
                    } else {
                        d[i]
                    }),
            decreases len - done,
        {
            let sector = start + 1 + (ofs + done) / 512;
            assert(sector * 512 == a + done);
            proof {
                vstd::arithmetic::div_mod::lemma_div_is_ordered(
                    (ofs + done) as int,
                    self.spec_size() as int,
                    512,
                );
            }
            copy_bytes(&mut buf, 0, contents, done, 512);
            match fs.t.write(Sector(sector), &buf) {
                Ok(()) => {},
                Err(e) => {
                    assert(!old(fs).t.can_write(sector));
                    assert(!old(fs).can_write(sector));
                    assert(start + 1 <= sector < start + 2 + self.spec_size() / 512);
                    return Err(e);
                },
            }
            done = done + 512;
        }
        let rem = len - done;
        if rem != 0 {
            let sector = start + 1 + (ofs + done) / 512;
            assert(sector * 512 == a + done);
            proof {
                vstd::arithmetic::div_mod::lemma_div_is_ordered(
                    (ofs + done) as int,
                    self.spec_size() as int,
                    512,
                );
            }
            assert(start + 1 <= sector < start + 2 + self.spec_size() / 512);
            match fs.t.read(Sector(sector), &mut buf) {
                Ok(()) => {},
                Err(e) => {
                    assert(!old(fs).t.can_read(sector));
                    assert(!old(fs).can_read(sector));
                    return Err(e);
                },
            }
            copy_bytes(&mut buf, 0, contents, done, rem);
            match fs.t.write(Sector(sector), &buf) {
                Ok(()) => {},
                Err(e) => {
                    assert(!old(fs).t.can_write(sector));
                    assert(!old(fs).can_write(sector));
                    return Err(e);
                },
            }
        }
        assert(fs.disk() =~= file_write_image(d, a, data));
        proof {
            if self.spec_start() >= 1 && old(fs).superblock_ok() {
                lemma_write_keeps_front(d, a, data);
            }
        }
        Ok(len)
    }
}

/// A write of `data` at byte `a` stores exactly `data` there.
pub proof fn lemma_file_write_then_read(d: Seq<u8>, a: int, data: Seq<u8>)
    requires
        0 <= a,
        a + data.len() <= d.len(),
    ensures
        file_write_image(d, a, data).subrange(a, a + data.len()) == data,
        file_write_image(d, a, data).len() == d.len(),
{
    assert(file_write_image(d, a, data).subrange(a, a + data.len()) =~= data);
}

/// The two little-endian fields that open a header decode to the values it was made from.
pub proof fn lemma_header_fields(name: Seq<u8>, size: u64)
    requires
        name.len() <= 496,
    ensures
        header_bytes(name, size).len() == 512,
        le_u64(header_bytes(name, size), 0) == name.len() as u64,
        le_u64(header_bytes(name, size), 8) == size,
        header_bytes(name, size).subrange(16, 16 + name.len() as int) == name,
{
    let h = header_bytes(name, size);
    lemma_u64_round_trip(name.len() as u64);
    lemma_u64_round_trip(size);
    assert(forall|k: int| 0 <= k < 8 ==> h[k] == u64_le_bytes(name.len() as u64)[k]);
    assert(forall|k: int| 0 <= k < 8 ==> h[8 + k] == u64_le_bytes(size)[k]);
    assert(h.subrange(16, 16 + name.len() as int) =~= name);
}

/// A freshly formatted disk carries the magic and the size it was formatted with.
pub proof fn lemma_format_then_load(d: Seq<u8>, size: usize)
    requires
        size >= 1024,
        (size / 512) * 512 <= d.len(),
    ensures
        formatted(d, size).len() == d.len(),
        formatted(d, size).subrange(0, 8) == magic(),
        le_u64(formatted(d, size), 8) == size as u64,
{
    let f = formatted(d, size);
    lemma_u64_round_trip(size as u64);
    assert(forall|k: int| 0 <= k < 8 ==> f[8 + k] == #[trigger] u64_le_bytes(size as u64)[k]);
    assert(f.subrange(0, 8) =~= magic());
}

/// A freshly formatted disk holds no file.
pub proof fn lemma_formatted_is_empty(d: Seq<u8>, size: usize, name: Seq<u8>)
    requires
        size >= 1024,
        (size / 512) * 512 <= d.len(),
        name.len() > 0,
    ensures
        lookup(formatted(d, size), (size / 512) as int, 1, name) is None,
{
    let f = formatted(d, size);
    let h = header_bytes(seq![], (size - 1024) as u64);
    assert(sector_bytes(f, 1) =~= h);
    lemma_header_fields(seq![], (size - 1024) as u64);
    assert(header_name(f, 1) =~= Seq::<u8>::empty());
    assert(header_name(f, 1) != name);
    let x = (size - 1024) as u64;
    assert(round_up_u64(x) >= x);
    assert(next_segment(f, 1) >= (size / 512) as int);
}

/// Whether every header on the segment chain from `p` up to (not including)
/// `pos` has a valid UTF-8 name different from `name`.
pub open spec fn chain_clear(d: Seq<u8>, nsec: int, p: int, pos: int, name: Seq<u8>) -> bool
    decreases nsec - p,
{
    if p >= pos || p < 0 || p >= nsec {
        true
    } else {
        &&& header_name_len(d, p) <= 496
        &&& valid_utf8(header_name(d, p))
        &&& header_name(d, p) != name
        &&& (next_segment(d, p) < nsec ==> chain_clear(d, nsec, next_segment(d, p), pos, name))
    }
}

proof fn lemma_create_image_keeps_front(d: Seq<u8>, pos: int, seg: int, name: Seq<u8>, contents: Seq<u8>, p: int)
    requires
        0 <= p < pos,
        readable(d, p),
        seg >= round_up_512(contents.len() as int),
        name.len() <= 496,
    ensures
        create_image(d, pos, seg, name, contents).len() == d.len(),
        sector_bytes(create_image(d, pos, seg, name, contents), p) == sector_bytes(d, p),
{
    assert(sector_bytes(create_image(d, pos, seg, name, contents), p) =~= sector_bytes(d, p));
}

/// A file stored by `create` is found again by `open`: after storing `name` with
/// `contents` in the free segment the scan picked, the lookup for `name` over the
/// new disk image reports that segment and the content size, provided no header
/// before it already carries that name.
pub proof fn lemma_create_then_lookup(
    d: Seq<u8>,
    nsec: int,
    p: int,
    name: Seq<u8>,
    contents: Seq<u8>,
    pos: int,
    seg: int,
)
    requires
        1 <= p,
        0 < name.len() <= 496,
        valid_utf8(name),
        contents.len() + 511 <= usize::MAX,
        find_slot(d, nsec, p, round_up_512(contents.len() as int) as usize) == Some(
            (pos, seg as usize),
        ),
        0 <= seg,
        chain_clear(d, nsec, p, pos, name),
    ensures
        lookup(create_image(d, pos, seg, name, contents), nsec, p, name) == Some(
            (pos, contents.len() as u64),
        ),
    decreases nsec - p,
{
    let req = round_up_512(contents.len() as int) as usize;
    let d2 = create_image(d, pos, seg, name, contents);
    if p == pos {
        assert(sector_bytes(d2, pos) =~= header_bytes(name, contents.len() as u64));
        lemma_header_fields(name, contents.len() as u64);
    } else {
        assert(p < pos) by {
            lemma_find_slot_forward(d, nsec, p, req);
        }
        assert(seg >= req) by {
            lemma_find_slot_forward(d, nsec, p, req);
        }
        lemma_create_image_keeps_front(d, pos, seg, name, contents, p);
        lemma_create_then_lookup(d, nsec, next_segment(d, p), name, contents, pos, seg);
    }
}

proof fn lemma_find_slot_forward(d: Seq<u8>, nsec: int, p: int, required: usize)
    requires
        find_slot(d, nsec, p, required) is Some,
    ensures
        ({
            let (pos, seg) = find_slot(d, nsec, p, required)->0;
            &&& p <= pos < nsec
            &&& seg >= required
            &&& readable(d, pos)
            &&& pos == p || (header_size(d, p) <= u64::MAX - 511 && next_segment(d, p) < nsec
                && find_slot(d, nsec, next_segment(d, p), required) == find_slot(d, nsec, p, required))
        }),
    decreases nsec - p,
{
    if p < nsec && p >= 0 && readable(d, p) && header_size(d, p) <= u64::MAX - 511 {
        if !(header_name_len(d, p) == 0 && segment_bytes(d, p) >= required) && next_segment(d, p) < nsec {
            lemma_find_slot_forward(d, nsec, next_segment(d, p), required);
        }
    }
}
/// Headers from sector `q` on lie past `hi`, where `d2` equals `d`: the
/// lookup from `q` is the same on both.
proof fn lemma_lookup_past(d: Seq<u8>, d2: Seq<u8>, nsec: int, q: int, lo: int, hi: int, name: Seq<u8>)
    requires
        same_outside(d, d2, lo, hi),
        q * 512 >= hi,
    ensures
        lookup(d2, nsec, q, name) == lookup(d, nsec, q, name),
    decreases nsec - q,
{
    if q < nsec && q >= 0 && readable(d, q) {
        assert(sector_bytes(d2, q) =~= sector_bytes(d, q));
        if header_name_len(d, q) <= 496 && valid_utf8(header_name(d, q)) && header_name(d, q) != name
            && header_size(d, q) <= u64::MAX - 511 && next_segment(d, q) < nsec {
            lemma_lookup_past(d, d2, nsec, next_segment(d, q), lo, hi, name);
        }
    }
}

/// A file system whose disk changed only inside the content of the free
/// segment a scan for `required` bytes finds from sector `p` shows the same
/// files: the lookup of any non-empty name gives the same header and size.
pub proof fn lemma_free_segment_change_keeps_files(
    d: Seq<u8>,
    d2: Seq<u8>,
    nsec: int,
    p: int,
    required: usize,
    name: Seq<u8>,
)
    requires
        1 <= p,
        name.len() > 0,
        find_slot(d, nsec, p, required) is Some,
        same_outside(
            d,
            d2,
            ((find_slot(d, nsec, p, required)->0).0 + 1) * 512,
            next_segment(d, (find_slot(d, nsec, p, required)->0).0) * 512,
        ),
    ensures
        lookup(d2, nsec, p, name) == lookup(d, nsec, p, name),
    decreases nsec - p,
{
    let pos = (find_slot(d, nsec, p, required)->0).0;
    lemma_find_slot_forward(d, nsec, p, required);
    assert(sector_bytes(d2, p) =~= sector_bytes(d, p));
    if p == pos {
        if !(header_name_len(d, p) == 0 && segment_bytes(d, p) >= required) {
            assert(next_segment(d, p) > p);
            lemma_find_slot_forward(d, nsec, next_segment(d, p), required);
        }
        assert(header_name(d, p) =~= Seq::<u8>::empty());
        if header_size(d, p) <= u64::MAX - 511 && next_segment(d, p) < nsec {
            lemma_lookup_past(d, d2, nsec, next_segment(d, p), (pos + 1) * 512, next_segment(d, pos) * 512, name);
        }
    } else {
        if header_name_len(d, p) <= 496 && valid_utf8(header_name(d, p)) && header_name(d, p) != name {
            lemma_free_segment_change_keeps_files(d, d2, nsec, next_segment(d, p), required, name);
        }
    }
}

/// A disk whose first sector is unchanged keeps its magic and size.
proof fn lemma_front_kept(d: Seq<u8>, d2: Seq<u8>)
    requires
        512 <= d.len(),
        d2.len() == d.len(),
        sector_bytes(d2, 0) == sector_bytes(d, 0),
    ensures
        d2.subrange(0, 8) == d.subrange(0, 8),
        le_u64(d2, 8) == le_u64(d, 8),
{
    assert(sector_bytes(d2, 0) =~= d2.subrange(0, 512));
    assert(sector_bytes(d, 0) =~= d.subrange(0, 512));
    assert forall|i: int| 0 <= i < 512 implies d2[i] == d[i] by {
        assert(d2.subrange(0, 512)[i] == d.subrange(0, 512)[i]);
    }
    assert(d2.subrange(0, 8) =~= d.subrange(0, 8));
}

/// Writing at or after byte 512 keeps sector 0.
proof fn lemma_write_keeps_front(d: Seq<u8>, a: int, data: Seq<u8>)
    requires
        512 <= d.len(),
        512 <= a,
    ensures
        file_write_image(d, a, data).subrange(0, 8) == d.subrange(0, 8),
        le_u64(file_write_image(d, a, data), 8) == le_u64(d, 8),
{
    let d2 = file_write_image(d, a, data);
    assert(sector_bytes(d2, 0) =~= sector_bytes(d, 0));
    lemma_front_kept(d, d2);
}

/// Loading the disk of a closed file system gives back the same file
/// system: when sector 0 holds the magic and the size (as `new` leaves it
/// and successful `create`s and `write`s keep it), a file system loaded
/// from the same disk has the same size and every lookup gives what it
/// gave before, so `open` finds the same files.
pub proof fn lemma_close_then_load_same_files<T: Disk>(fs: FileSystem<T>, loaded: FileSystem<T>, name: Seq<u8>)
    requires
        fs.superblock_ok(),
        loaded.disk() == fs.disk(),
        loaded.fs_size() == le_u64(fs.disk(), 8) as usize,
    ensures
        loaded.fs_size() == fs.fs_size(),
        loaded.superblock_ok(),
        lookup(loaded.disk(), loaded.num_sectors(), 1, name) == lookup(fs.disk(), fs.num_sectors(), 1, name),
{
}

} // verus!
