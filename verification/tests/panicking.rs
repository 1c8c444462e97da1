use lib::panicking::format::{backtrace_entry, FrameLocation};
use lib::panicking::symbols::describe_pc;

fn loc(function: Option<&str>, file: Option<&str>, line: Option<u32>, column: Option<u32>) -> FrameLocation {
    FrameLocation {
        function: function.map(String::from),
        file: file.map(String::from),
        line,
        column,
    }
}

#[test]
fn entry_of_an_unknown_address() {
    assert_eq!(backtrace_entry(3, 0xffff_ff80_0010_2a3c, &None), vec![String::from(
        "   3: 0xffffff8000102a3c  - ?"
    )]);
    assert_eq!(backtrace_entry(12, 0x1000, &Some(vec![])), vec![String::from(
        "  12: 0x0000000000001000  - ?"
    )]);
}

#[test]
fn entry_with_inlined_frames() {
    let frames = vec![
        loc(Some("keos::thread::park"), Some("src/thread.rs"), Some(120), Some(9)),
        loc(None, Some("src/lib.rs"), None, Some(0)),
        loc(Some("main"), None, Some(7), None),
    ];
    let lines = backtrace_entry(1, 0xabc, &Some(frames));
    assert_eq!(lines.len(), 3);
    assert_eq!(
        lines[0],
        "   1: 0x0000000000000abc  - keos::thread::park\n                         at src/thread.rs:120:9"
    );
    assert_eq!(lines[1], "                         at src/lib.rs:?:0");
    assert_eq!(lines[2], "                         at ?:7:?");
}

#[test]
fn entry_of_a_frame_without_a_name() {
    let lines = backtrace_entry(100, u64::MAX, &Some(vec![loc(None, None, None, None)]));
    assert_eq!(lines, vec![String::from(
        "  100: 0xffffffffffffffff  - ?\n                         at ?:?:?"
    )]);
}

#[test]
fn entry_from_an_image_without_debugging_information() {
    assert_eq!(describe_pc(&[0x7f, b'E', b'L', b'F', 1, 2, 3], 4, 0x20), vec![String::from(
        "   4: 0x0000000000000020  - ?"
    )]);
    assert_eq!(describe_pc(&[], 10, 0), vec![String::from("  10: 0x0000000000000000  - ?")]);
}
