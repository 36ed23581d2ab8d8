use tree_sitter_tlaplus::block::{block_align, header_len, layout_for, plan_resize, BlockLayout};
use tree_sitter_tlaplus::report::{assertion_report, push_decimal};
use tree_sitter_tlaplus::{iswalnum, iswdigit, iswspace};

#[test]
fn whitespace_is_space_tab_newline_only() {
    assert_eq!(iswspace(' ' as u32), 1);
    assert_eq!(iswspace('\t' as u32), 1);
    assert_eq!(iswspace('\n' as u32), 1);
    assert_eq!(iswspace('\r' as u32), 0);
    assert_eq!(iswspace(0x0B), 0);
    assert_eq!(iswspace(0x0C), 0);
    assert_eq!(iswspace('a' as u32), 0);
    assert_eq!(iswspace(0x3000), 0);
    assert_eq!(iswspace(u32::MAX), 0);
    assert_eq!(iswspace(0), 0);
}

#[test]
fn digits_are_zero_to_nine() {
    for c in 0u32..0x80 {
        let expected = if ('0' as u32..='9' as u32).contains(&c) { 1 } else { 0 };
        assert_eq!(iswdigit(c), expected, "code point {}", c);
    }
    assert_eq!(iswdigit(0x0660), 0);
    assert_eq!(iswdigit(0xFF10), 0);
    assert_eq!(iswdigit(u32::MAX), 0);
}

#[test]
fn alnum_is_digit_or_ascii_letter() {
    for c in 0u32..0x80 {
        let ch = char::from_u32(c).unwrap();
        let expected = if ch.is_ascii_alphanumeric() { 1 } else { 0 };
        assert_eq!(iswalnum(c), expected, "code point {}", c);
    }
    assert_eq!(iswalnum('_' as u32), 0);
    assert_eq!(iswalnum('@' as u32), 0);
    assert_eq!(iswalnum('[' as u32), 0);
    assert_eq!(iswalnum('`' as u32), 0);
    assert_eq!(iswalnum('{' as u32), 0);
    assert_eq!(iswalnum(0xE9), 0);
    assert_eq!(iswalnum(u32::MAX), 0);
}

#[test]
fn header_holds_a_word_and_keeps_alignment() {
    let header = header_len();
    let align = block_align();
    assert_eq!(header, std::mem::size_of::<usize>());
    assert_eq!(align, std::mem::align_of::<usize>());
    assert!(align.is_power_of_two());
    assert_eq!(header % align, 0);
}

#[test]
fn layout_adds_the_header() {
    let header = header_len();
    let align = block_align();
    assert_eq!(layout_for(0), Some(BlockLayout { size: header, align }));
    assert_eq!(layout_for(100), Some(BlockLayout { size: header + 100, align }));
    let l = layout_for(24).unwrap();
    assert!(std::alloc::Layout::from_size_align(l.size, l.align).is_ok());
}

#[test]
fn layout_refuses_oversized_requests() {
    let header = header_len();
    let align = block_align();
    let limit = isize::MAX as usize - (isize::MAX as usize) % align;
    assert_eq!(layout_for(usize::MAX), None);
    assert_eq!(layout_for(usize::MAX - header + 1), None);
    assert_eq!(layout_for(isize::MAX as usize), None);
    assert_eq!(layout_for(limit - header + 1), None);
    let largest = layout_for(limit - header).unwrap();
    assert_eq!(largest.size, limit);
    assert!(std::alloc::Layout::from_size_align(largest.size, largest.align).is_ok());
}

#[test]
fn release_rebuilds_the_allocation_layout() {
    let header = header_len();
    for size in [0usize, 1, 7, 8, 4096, 1 << 20] {
        let allocated = layout_for(size).unwrap();
        let recorded = allocated.size - header;
        assert_eq!(recorded, size);
        assert_eq!(layout_for(recorded), Some(allocated));
    }
}

#[test]
fn growing_keeps_the_old_payload() {
    let header = header_len();
    let plan = plan_resize(16, 64).unwrap();
    assert_eq!(plan.old, layout_for(16).unwrap());
    assert_eq!(plan.new_size, header + 64);
    assert_eq!(plan.kept, 16);
    assert!(header + plan.kept <= plan.old.size.min(plan.new_size));
    assert_eq!(layout_for(64).unwrap().size, plan.new_size);
}

#[test]
fn shrinking_keeps_the_new_payload() {
    let header = header_len();
    let plan = plan_resize(64, 10).unwrap();
    assert_eq!(plan.old.size, header + 64);
    assert_eq!(plan.new_size, header + 10);
    assert_eq!(plan.kept, 10);
}

#[test]
fn resize_to_an_impossible_size_is_refused() {
    assert_eq!(plan_resize(16, usize::MAX), None);
    assert_eq!(plan_resize(0, isize::MAX as usize), None);
}

#[test]
fn decimal_of_line_numbers() {
    let mut s = String::new();
    push_decimal(&mut s, 0);
    assert_eq!(s, "0");
    let mut s = String::from("line ");
    push_decimal(&mut s, 10);
    assert_eq!(s, "line 10");
    let mut s = String::new();
    push_decimal(&mut s, 407);
    assert_eq!(s, "407");
    let mut s = String::new();
    push_decimal(&mut s, u32::MAX);
    assert_eq!(s, "4294967295");
}

#[test]
fn report_of_empty_assertion() {
    let r = assertion_report("", "", 0, "");
    assert!(r.contains("Assertion failed"));
    assert_eq!(r, "Assertion failed: , file: , line: 0, function: ");
}

#[test]
fn report_names_every_part() {
    let r = assertion_report("len > 0", "parser.c", 1234, "ts_parser__advance");
    assert_eq!(
        r,
        "Assertion failed: len > 0, file: parser.c, line: 1234, function: ts_parser__advance"
    );
}
