use nowplaying::display::{
    command, init_sequence, render_sequence, send, set_cursor, write4bits, write_text,
    BusOp, LCD_ADDR, MODE_COMMAND, MODE_DATA, RETURN_HOME, SHIFT_CURSOR,
};

fn nibble(data: u8) -> Vec<BusOp> {
    vec![
        BusOp::Write(data | 0x0C),
        BusOp::DelayMs(5),
        BusOp::Write((data | 0x08) & 0xFB),
        BusOp::DelayMs(5),
    ]
}

fn byte(data: u8, mode: u8) -> Vec<BusOp> {
    let mut v = nibble((data & 0xF0) | mode);
    v.extend(nibble(((data & 0x0F) << 4) | mode));
    v
}

#[test]
fn bus_address_is_fixed() {
    assert_eq!(LCD_ADDR, 0x27);
}

#[test]
fn nibble_is_strobed_high_then_low() {
    let mut ops = Vec::new();
    write4bits(&mut ops, 0x30);
    assert_eq!(
        ops,
        vec![BusOp::Write(0x3C), BusOp::DelayMs(5), BusOp::Write(0x38), BusOp::DelayMs(5)]
    );
}

#[test]
fn nibble_keeps_mode_bit_on_falling_edge() {
    let mut ops = Vec::new();
    write4bits(&mut ops, 0x41);
    assert_eq!(
        ops,
        vec![BusOp::Write(0x4D), BusOp::DelayMs(5), BusOp::Write(0x49), BusOp::DelayMs(5)]
    );
}

#[test]
fn nibble_appends_to_what_is_queued() {
    let mut ops = vec![BusOp::DelayMs(7)];
    write4bits(&mut ops, 0x20);
    assert_eq!(ops.len(), 5);
    assert_eq!(ops[0], BusOp::DelayMs(7));
    assert_eq!(ops[1], BusOp::Write(0x2C));
}

#[test]
fn send_a5_as_command() {
    let mut ops = Vec::new();
    send(&mut ops, 0xA5, MODE_COMMAND);
    let mut expected = nibble(0xA0);
    expected.extend(nibble(0x50));
    assert_eq!(ops, expected);
    assert_eq!(ops[0], BusOp::Write(0xAC));
    assert_eq!(ops[2], BusOp::Write(0xA8));
    assert_eq!(ops[4], BusOp::Write(0x5C));
    assert_eq!(ops[6], BusOp::Write(0x58));
}

#[test]
fn send_a5_as_data() {
    let mut ops = Vec::new();
    send(&mut ops, 0xA5, MODE_DATA);
    let mut expected = nibble(0xA1);
    expected.extend(nibble(0x51));
    assert_eq!(ops, expected);
    assert_eq!(ops[0], BusOp::Write(0xAD));
    assert_eq!(ops[2], BusOp::Write(0xA9));
    assert_eq!(ops[4], BusOp::Write(0x5D));
    assert_eq!(ops[6], BusOp::Write(0x59));
}

#[test]
fn every_byte_goes_out_high_nibble_first() {
    for data in 0..=255u8 {
        for mode in [MODE_COMMAND, MODE_DATA] {
            let mut ops = Vec::new();
            send(&mut ops, data, mode);
            assert_eq!(ops, byte(data, mode));
        }
    }
}

#[test]
fn write_and_command_differ_in_mode_only() {
    let mut data = Vec::new();
    nowplaying::display::write(&mut data, b'A');
    assert_eq!(data, byte(0x41, 1));
    let mut cmd = Vec::new();
    command(&mut cmd, 0x41);
    assert_eq!(cmd, byte(0x41, 0));
}

#[test]
fn reposition_to_second_row_shifts_forty_times() {
    let mut ops = Vec::new();
    set_cursor(&mut ops, 1, 0);
    let mut expected = byte(RETURN_HOME, 0);
    expected.push(BusOp::DelayMs(2));
    for _ in 0..40 {
        expected.extend(byte(SHIFT_CURSOR, 0));
    }
    assert_eq!(ops, expected);
    let shift = byte(SHIFT_CURSOR, 0);
    let shifts = ops[9..].chunks(8).filter(|c| *c == shift.as_slice()).count();
    assert_eq!(shifts, 40);
    assert_eq!(ops.len(), 9 + 8 * 40);
}

#[test]
fn reposition_to_origin_shifts_never() {
    let mut ops = Vec::new();
    set_cursor(&mut ops, 0, 0);
    let mut expected = byte(RETURN_HOME, 0);
    expected.push(BusOp::DelayMs(2));
    assert_eq!(ops, expected);
}

#[test]
fn reposition_counts_row_times_forty_plus_column() {
    let mut ops = Vec::new();
    set_cursor(&mut ops, 1, 3);
    assert_eq!(ops.len(), 9 + 8 * 43);
    let mut far = Vec::new();
    set_cursor(&mut far, 255, 255);
    assert_eq!(far.len(), 9 + 8 * (255 * 40 + 255));
}

#[test]
fn initialization_order() {
    let mut expected = vec![BusOp::DelayMs(80)];
    for _ in 0..3 {
        expected.extend(nibble(0x30));
        expected.push(BusOp::DelayMs(5));
    }
    expected.extend(nibble(0x20));
    expected.extend(byte(0x28, 0));
    expected.extend(byte(0x0C, 0));
    expected.extend(byte(0x01, 0));
    expected.extend(byte(0x06, 0));
    assert_eq!(init_sequence(), expected);
}

#[test]
fn initialization_bytes_on_the_wire() {
    let writes: Vec<u8> = init_sequence()
        .iter()
        .filter_map(|op| match op {
            BusOp::Write(b) => Some(*b),
            BusOp::DelayMs(_) => None,
        })
        .collect();
    assert_eq!(
        writes,
        vec![
            0x3C, 0x38, 0x3C, 0x38, 0x3C, 0x38, 0x2C, 0x28, 0x2C, 0x28, 0x8C, 0x88, 0x0C, 0x08,
            0xCC, 0xC8, 0x0C, 0x08, 0x1C, 0x18, 0x0C, 0x08, 0x6C, 0x68
        ]
    );
}

#[test]
fn text_is_written_byte_by_byte() {
    let mut ops = Vec::new();
    write_text(&mut ops, b"Hi");
    let mut expected = byte(b'H', 1);
    expected.extend(byte(b'i', 1));
    assert_eq!(ops, expected);
    let mut none = Vec::new();
    write_text(&mut none, b"");
    assert!(none.is_empty());
}

#[test]
fn render_homes_clears_and_writes_both_rows() {
    let ops = render_sequence(b"Song A", b"Band X");
    let mut expected = byte(0x02, 0);
    expected.push(BusOp::DelayMs(2));
    expected.extend(byte(0x01, 0));
    expected.push(BusOp::DelayMs(2));
    for b in b"Song A" {
        expected.extend(byte(*b, 1));
    }
    expected.extend(byte(0x02, 0));
    expected.push(BusOp::DelayMs(2));
    for _ in 0..40 {
        expected.extend(byte(0x14, 0));
    }
    for b in b"Band X" {
        expected.extend(byte(*b, 1));
    }
    assert_eq!(ops, expected);
}

#[test]
fn render_of_nothing_still_clears() {
    let ops = render_sequence(b"", b"");
    assert_eq!(ops.len(), 18 + 9 + 320);
}
