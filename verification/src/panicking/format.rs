//! The text of a backtrace entry: a frame's address, function name and
//! source location.
use vstd::prelude::*;
use vstd::string::StringExecFns;

verus! {

/// Where a program counter lies in the source, as the debugging information
/// of the kernel image tells it.
#[derive(Clone, Debug)]
pub struct FrameLocation {
    /// The demangled name of the function, when known.
    pub function: Option<String>,
    /// The source file, when known.
    pub file: Option<String>,
    /// The source line, when known.
    pub line: Option<u32>,
    /// The source column, when known.
    pub column: Option<u32>,
}

/// The digit `d` (`d < 16`) as a lower-case character.
pub open spec fn digit_char(d: nat) -> char {
    if d == 0 { '0' } else if d == 1 { '1' } else if d == 2 { '2' } else if d == 3 { '3' }
    else if d == 4 { '4' } else if d == 5 { '5' } else if d == 6 { '6' } else if d == 7 { '7' }
    else if d == 8 { '8' } else if d == 9 { '9' } else if d == 10 { 'a' } else if d == 11 { 'b' }
    else if d == 12 { 'c' } else if d == 13 { 'd' } else if d == 14 { 'e' } else { 'f' }
}

/// `n` written in decimal, without leading zeros.
pub open spec fn dec_chars(n: nat) -> Seq<char>
    decreases n,
{
    if n < 10 {
        seq![digit_char(n)]
    } else {
        dec_chars(n / 10) + seq![digit_char(n % 10)]
    }
}

/// `v` written as 16 lower-case hexadecimal digits.
pub open spec fn hex16(v: u64) -> Seq<char> {
    Seq::new(16, |i: int| digit_char(((v >> ((60 - 4 * i) as u64)) % 16) as nat))
}

/// `n` written in decimal, right-aligned in a field of width 2.
pub open spec fn pad2(n: nat) -> Seq<char> {
    if n < 10 {
        seq![' '] + dec_chars(n)
    } else {
        dec_chars(n)
    }
}

/// A number in decimal, or `?` when unknown.
pub open spec fn opt_dec(x: Option<u32>) -> Seq<char> {
    match x {
        Some(v) => dec_chars(v as nat),
        None => seq!['?'],
    }
}

/// A text, or `?` when unknown.
pub open spec fn opt_text(x: Option<String>) -> Seq<char> {
    match x {
        Some(s) => s@,
        None => seq!['?'],
    }
}

/// The indentation of the source line of an entry.
pub open spec fn location_indent() -> Seq<char> {
    Seq::new(25, |_i: int| ' ') + seq!['a', 't', ' ']
}

/// The source line of a frame: `at file:line:column`, indented.
pub open spec fn location_line(f: FrameLocation) -> Seq<char> {
    location_indent() + opt_text(f.file) + seq![':'] + opt_dec(f.line) + seq![':'] + opt_dec(
        f.column,
    )
}

/// The head of the entry for the `depth`-th frame at `pc`: `  depth: 0xpc  - `.
pub open spec fn entry_head(depth: nat, pc: u64) -> Seq<char> {
    seq![' ', ' '] + pad2(depth) + seq![':', ' ', '0', 'x'] + hex16(pc) + seq![' ', ' ', '-', ' ']
}

/// The lines of the backtrace entry for the `depth`-th frame at `pc`, whose
/// source frames (innermost first) are `frames`: the head with the first
/// frame's function name and its source line, then the source line of each
/// frame it was inlined into; a `?` when nothing is known of `pc`.
pub open spec fn entry_lines(depth: nat, pc: u64, frames: Option<Seq<FrameLocation>>) -> Seq<Seq<char>> {
    match frames {
        Some(fs) => if fs.len() > 0 {
            seq![entry_head(depth, pc) + opt_text(fs[0].function) + seq!['\n'] + location_line(fs[0])]
                + fs.skip(1).map_values(|f: FrameLocation| location_line(f))
        } else {
            seq![entry_head(depth, pc) + seq!['?']]
        },
        None => seq![entry_head(depth, pc) + seq!['?']],
    }
}

/// The frames found for a program counter, as a sequence.
pub open spec fn frames_view(frames: Option<Vec<FrameLocation>>) -> Option<Seq<FrameLocation>> {
    match frames {
        Some(v) => Some(v@),
        None => None,
    }
}

/// The digit `d` as a one-character string.
fn digit_str(d: u64) -> (r: &'static str)
    requires
        d < 16,
    ensures
        r@ == seq![digit_char(d as nat)],
{
    proof {
        reveal_strlit("0");
        reveal_strlit("1");
        reveal_strlit("2");
        reveal_strlit("3");
        reveal_strlit("4");
        reveal_strlit("5");
        reveal_strlit("6");
        reveal_strlit("7");
        reveal_strlit("8");
        reveal_strlit("9");
        reveal_strlit("a");
        reveal_strlit("b");
        reveal_strlit("c");
        reveal_strlit("d");
        reveal_strlit("e");
        reveal_strlit("f");
    }
    match d {
        0 => "0",
        1 => "1",
        2 => "2",
        3 => "3",
        4 => "4",
        5 => "5",
        6 => "6",
        7 => "7",
        8 => "8",
        9 => "9",
        10 => "a",
        11 => "b",
        12 => "c",
        13 => "d",
        14 => "e",
        _ => "f",
    }
}

/// Appends `n` in decimal to `out`.
pub fn push_dec(out: &mut String, n: u64)
    ensures
        final(out)@ == old(out)@ + dec_chars(n as nat),
    decreases n,
{
    if n >= 10 {
        push_dec(out, n / 10);
        out.append(digit_str(n % 10));
        assert(final(out)@ =~= old(out)@ + dec_chars(n as nat));
    } else {
        out.append(digit_str(n));
    }
}

/// Appends `v` as 16 hexadecimal digits to `out`.
pub fn push_hex16(out: &mut String, v: u64)
    ensures
        final(out)@ == old(out)@ + hex16(v),
{
    let mut i: u64 = 0;
    while i < 16
        invariant
            i <= 16,
            out@ == old(out)@ + hex16(v).take(i as int),
        decreases 16 - i,
    {
        let d = (v >> (60 - 4 * i)) % 16;
        out.append(digit_str(d));
        assert(hex16(v).take(i + 1) =~= hex16(v).take(i as int) + seq![digit_char(d as nat)]);
        i += 1;
    }
    assert(hex16(v).take(16) =~= hex16(v));
}

/// Appends a text, or `?` when unknown.
fn push_opt_text(out: &mut String, x: &Option<String>)
    ensures
        final(out)@ == old(out)@ + opt_text(*x),
{
    proof {
        reveal_strlit("?");
    }
    match x {
        Some(s) => out.append(s.as_str()),
        None => out.append("?"),
    }
}

/// Appends a number in decimal, or `?` when unknown.
fn push_opt_dec(out: &mut String, x: Option<u32>)
    ensures
        final(out)@ == old(out)@ + opt_dec(x),
{
    proof {
        reveal_strlit("?");
    }
    match x {
        Some(v) => push_dec(out, v as u64),
        None => out.append("?"),
    }
}

/// The source line of a frame.
fn location_text(f: &FrameLocation) -> (r: String)
    ensures
        r@ == location_line(*f),
{
    proof {
        reveal_strlit("                         at ");
        reveal_strlit(":");
    }
    let mut out = String::from_str("                         at ");
    assert(out@ =~= location_indent());
    push_opt_text(&mut out, &f.file);
    out.append(":");
    push_opt_dec(&mut out, f.line);
    out.append(":");
    push_opt_dec(&mut out, f.column);
    out
}

/// The head of the entry for the `depth`-th frame at `pc`.
fn head_text(depth: usize, pc: u64) -> (r: String)
    ensures
        r@ == entry_head(depth as nat, pc),
{
    proof {
        reveal_strlit("  ");
        reveal_strlit(" ");
        reveal_strlit(": 0x");
        reveal_strlit("  - ");
    }
    let mut out = String::from_str("  ");
    if depth < 10 {
        out.append(" ");
    }
    push_dec(&mut out, depth as u64);
    out.append(": 0x");
    push_hex16(&mut out, pc);
    out.append("  - ");
    assert(out@ =~= entry_head(depth as nat, pc));
    out
}

/// The lines of the backtrace entry for the `depth`-th frame at `pc`, given
/// the source frames found for `pc` (innermost first), if any.
pub fn backtrace_entry(depth: usize, pc: u64, frames: &Option<Vec<FrameLocation>>) -> (r: Vec<String>)
    ensures
        r@.len() == entry_lines(depth as nat, pc, frames_view(*frames)).len(),
        forall|i: int|
            0 <= i < r@.len() ==> #[trigger] r@[i]@ == entry_lines(depth as nat, pc, frames_view(*frames))[i],
{
    proof {
        reveal_strlit("?");
        reveal_strlit("\n");
    }
    let ghost fv = frames_view(*frames);
    let ghost lines = entry_lines(depth as nat, pc, fv);
    let mut head = head_text(depth, pc);
    match frames {
        Some(v) => {
            if v.len() > 0 {
                push_opt_text(&mut head, &v[0].function);
                head.append("\n");
                let first = location_text(&v[0]);
                head.append(first.as_str());
                let mut out: Vec<String> = Vec::new();
                out.push(head);
                assert(out@[0]@ =~= lines[0]);
                let mut k: usize = 1;
                while k < v.len()
                    invariant
                        1 <= k <= v@.len(),
                        fv == Some(v@),
                        lines == entry_lines(depth as nat, pc, fv),
                        out@.len() == k,
                        forall|i: int| 0 <= i < k ==> #[trigger] out@[i]@ == lines[i],
                    decreases v@.len() - k,
                {
                    let line = location_text(&v[k]);
                    out.push(line);
                    assert(lines[k as int] == location_line(v@[k as int]));
                    k += 1;
                }
                return out;
            }
        },
        None => {},
    }
    head.append("?");
    let mut out: Vec<String> = Vec::new();
    out.push(head);
    assert(out@[0]@ =~= lines[0]);
    out
}

} // verus!
