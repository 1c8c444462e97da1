//! The source frames of a program counter, from the DWARF debugging
//! information of the kernel image.
use vstd::prelude::*;
use object::{Object, ObjectSection};
use std::sync::Arc;
use crate::panicking::format::{backtrace_entry, entry_lines, frames_view, FrameLocation};

verus! {

/// `gimli::SectionId`, which DWARF section is wanted.
#[verifier::external_type_specification]
#[verifier::external_body]
pub struct ExSectionId(gimli::SectionId);

/// `addr2line::Location`, the source location of a frame.
#[verifier::external_type_specification]
pub struct ExLocation<'a>(addr2line::Location<'a>);

/// The source frames (innermost first) that the DWARF debugging information
/// of the object file `image` gives for the program counter `pc`; `None`
/// when the image cannot be parsed or the lookup fails.
pub uninterp spec fn source_frames(image: Seq<u8>, pc: u64) -> Option<Seq<FrameLocation>>;

/// The contents of the section called `name` of the object file `image`;
/// `None` when the image cannot be parsed, lacks the section, or its data
/// cannot be decompressed.
pub uninterp spec fn section_contents(image: Seq<u8>, name: Seq<char>) -> Option<Seq<u8>>;

/// `gimli::SectionId::name`: the name of a DWARF section in an object file.
/// Nothing is claimed about the name.
#[verifier::external_body]
fn section_name(id: gimli::SectionId) -> &'static str {
    id.name()
}

/// Parses `image` with `object::File::parse`, finds the section `name`
/// with `section_by_name` and takes its `uncompressed_data`. Claimed: the
/// result is `section_contents` of the image's bytes and the name.
#[verifier::external_body]
fn image_section(image: &[u8], name: &str) -> (r: Option<Vec<u8>>)
    ensures
        match r {
            Some(v) => section_contents(image@, name@) == Some(v@),
            None => section_contents(image@, name@) is None,
        },
{
    let file = object::File::parse(image).ok()?;
    Some(file.section_by_name(name)?.uncompressed_data().ok()?.into_owned())
}

/// The bytes of the DWARF section `id` of `image`; a section the image
/// lacks reads as empty.
fn section_data(image: &[u8], id: gimli::SectionId) -> (r: Vec<u8>)
    ensures
        exists|name: Seq<char>|
            match #[trigger] section_contents(image@, name) {
                Some(c) => r@ == c,
                None => r@ == Seq::<u8>::empty(),
            },
{
    let name = section_name(id);
    match image_section(image, name) {
        Some(v) => v,
        None => Vec::new(),
    }
}

/// A text, by its view.
pub open spec fn opt_view(x: Option<String>) -> Option<Seq<char>> {
    match x {
        Some(s) => Some(s@),
        None => None,
    }
}

/// A frame's source location, with its demangled function name.
fn frame_location(function: Option<String>, loc: Option<&addr2line::Location>) -> (r: FrameLocation)
    ensures
        r.function == function,
        opt_view(r.file) == match loc {
            Some(l) => match l.file {
                Some(f) => Some(f@),
                None => None,
            },
            None => None,
        },
        r.line == match loc {
            Some(l) => l.line,
            None => None,
        },
        r.column == match loc {
            Some(l) => l.column,
            None => None,
        },
{
    match loc {
        Some(l) => FrameLocation {
            function,
            file: match l.file {
                Some(f) => Some(f.to_owned()),
                None => None,
            },
            line: l.line,
            column: l.column,
        },
        None => FrameLocation { function, file: None, line: None, column: None },
    }
}

/// Loads the DWARF sections of `image` with `gimli::Dwarf::load` (each
/// through `section_data`), builds an `addr2line::Context` from them and
/// walks the frames `find_frames` gives for `pc`, each converted by
/// `frame_location`. Claimed: the result is `source_frames` of the image's
/// bytes and `pc`; nothing is claimed about what that is.
#[verifier::external_body]
fn frames_in_image(image: &[u8], pc: u64) -> (r: Option<Vec<FrameLocation>>)
    ensures
        frames_view(r) == source_frames(image@, pc),
{
    let load = |id| Ok::<_, ()>(gimli::EndianArcSlice::new(Arc::from(section_data(image, id)), gimli::LittleEndian));
    let ctx = addr2line::Context::from_dwarf(gimli::Dwarf::load(load).ok()?).ok()?;
    let mut frames = ctx.find_frames(pc).skip_all_loads().ok()?;
    let mut out = Vec::new();
    while let Ok(Some(f)) = frames.next() {
        let name = f.function.as_ref().and_then(|n| n.demangle().ok()).map(|n| n.into_owned());
        out.push(frame_location(name, f.location.as_ref()));
    }
    Some(out)
}

/// The lines of the backtrace entry for the `depth`-th frame, at `pc`, with
/// the function names and source locations that the debugging information
/// of the kernel image `image` gives for it.
pub fn describe_pc(image: &[u8], depth: usize, pc: u64) -> (r: Vec<String>)
    ensures
        r@.len() == entry_lines(depth as nat, pc, source_frames(image@, pc)).len(),
        forall|i: int|
            0 <= i < r@.len() ==> #[trigger] r@[i]@ == entry_lines(depth as nat, pc, source_frames(image@, pc))[i],
{
    let frames = frames_in_image(image, pc);
    backtrace_entry(depth, pc, &frames)
}

} // verus!
