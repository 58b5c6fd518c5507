//! Driver for a two-row character-matrix display that sits behind an I/O expander
//! on a two-wire bus and is driven in 4-bit mode.
//!
//! The driver does no bus I/O itself. Every function appends the transactions and
//! settle delays it stands for to a queue of [`BusOp`]s; whoever owns the bus
//! replays the queue in order against the device at [`LCD_ADDR`].
use vstd::prelude::*;

verus! {

/// Fixed 7-bit bus address of the display's I/O expander.
pub const LCD_ADDR: u8 = 0x27;

/// Backlight-enable bit, latched into every transaction.
pub const BACKLIGHT: u8 = 0x08;

/// Strobe bit; the controller latches a nibble on its falling edge.
pub const STROBE: u8 = 0x04;

/// Register-select value for a command byte.
pub const MODE_COMMAND: u8 = 0x00;

/// Register-select value for a data byte.
pub const MODE_DATA: u8 = 0x01;

pub const FUNCTION_SET: u8 = 0x20;

pub const EIGHT_BIT_MODE: u8 = 0x10;

pub const TWO_LINE_DISPLAY: u8 = 0x08;

pub const DISPLAY_COMMAND: u8 = 0x08;

pub const DISPLAY_ON: u8 = 0x04;

pub const ENTRY_MODE_COMMAND: u8 = 0x04;

pub const ENTRY_RIGHT: u8 = 0x02;

pub const CLEAR_SCREEN: u8 = 0x01;

pub const RETURN_HOME: u8 = 0x02;

/// "Shift cursor right" command.
pub const SHIFT_CURSOR: u8 = 0x14;

/// Columns per row in the controller's internal layout, whatever the visible width.
pub const ROW_WIDTH: u8 = 40;

/// Delay after each of the two transactions of a nibble, in milliseconds.
pub const STROBE_SETTLE_MS: u32 = 5;

/// Delay after return-home and clear-display, in milliseconds.
pub const COMMAND_SETTLE_MS: u32 = 2;

/// Delay before the first transaction, for the controller's power-on reset.
pub const POWER_ON_MS: u32 = 80;

/// Gap after each of the three 8-bit function-set nibbles of the initialization.
pub const INIT_GAP_MS: u32 = 5;

/// One step on the display bus.
#[derive(Clone, Copy, Debug, PartialEq, Eq, Structural)]
pub enum BusOp {
    /// Transmit this one byte to the device at [`LCD_ADDR`].
    Write(u8),
    /// Wait at least this many milliseconds.
    DelayMs(u32),
}

/// The byte that raises the strobe for `data`.
pub open spec fn strobe_high(data: u8) -> u8 {
    data | STROBE | BACKLIGHT
}

/// The byte of `strobe_high(data)` with the strobe bit cleared.
pub open spec fn strobe_low(data: u8) -> u8 {
    (data | STROBE | BACKLIGHT) & !STROBE
}

/// The atomic unit of the protocol: strobe high, settle, strobe low, settle.
pub open spec fn nibble_ops(data: u8) -> Seq<BusOp> {
    seq![
        BusOp::Write(strobe_high(data)),
        BusOp::DelayMs(STROBE_SETTLE_MS),
        BusOp::Write(strobe_low(data)),
        BusOp::DelayMs(STROBE_SETTLE_MS),
    ]
}

/// High nibble of `data`, with the mode bit.
pub open spec fn high_nibble(data: u8, mode: u8) -> u8 {
    (data & 0xF0) | mode
}

/// Low nibble of `data` moved into the high position, with the mode bit.
pub open spec fn low_nibble(data: u8, mode: u8) -> u8 {
    ((data << 4) & 0xF0) | mode
}

/// A full byte: high nibble first, then low nibble.
pub open spec fn send_ops(data: u8, mode: u8) -> Seq<BusOp> {
    nibble_ops(high_nibble(data, mode)) + nibble_ops(low_nibble(data, mode))
}

pub open spec fn command_ops(data: u8) -> Seq<BusOp> {
    send_ops(data, MODE_COMMAND)
}

pub open spec fn write_ops(data: u8) -> Seq<BusOp> {
    send_ops(data, MODE_DATA)
}

/// `n` "shift cursor right" commands.
pub open spec fn shift_ops(n: nat) -> Seq<BusOp>
    decreases n,
{
    if n == 0 {
        Seq::empty()
    } else {
        shift_ops((n - 1) as nat) + command_ops(SHIFT_CURSOR)
    }
}

/// Number of cursor shifts that lead from home to `(row, col)`.
pub open spec fn shift_count(row: u8, col: u8) -> nat {
    (row as nat) * (ROW_WIDTH as nat) + (col as nat)
}

/// Return home, settle, then shift right once per cell up to `(row, col)`.
pub open spec fn set_cursor_ops(row: u8, col: u8) -> Seq<BusOp> {
    command_ops(RETURN_HOME) + seq![BusOp::DelayMs(COMMAND_SETTLE_MS)] + shift_ops(
        shift_count(row, col),
    )
}

/// Every byte of `text` as a data byte, in order.
pub open spec fn text_ops(text: Seq<u8>) -> Seq<BusOp>
    decreases text.len(),
{
    if text.len() == 0 {
        Seq::empty()
    } else {
        text_ops(text.drop_last()) + write_ops(text.last())
    }
}

/// The power-on initialization, in the one order the controller accepts.
pub open spec fn init_ops() -> Seq<BusOp> {
    seq![BusOp::DelayMs(POWER_ON_MS)]
        + nibble_ops(FUNCTION_SET | EIGHT_BIT_MODE) + seq![BusOp::DelayMs(INIT_GAP_MS)]
        + nibble_ops(FUNCTION_SET | EIGHT_BIT_MODE) + seq![BusOp::DelayMs(INIT_GAP_MS)]
        + nibble_ops(FUNCTION_SET | EIGHT_BIT_MODE) + seq![BusOp::DelayMs(INIT_GAP_MS)]
        + nibble_ops(FUNCTION_SET)
        + command_ops(FUNCTION_SET | TWO_LINE_DISPLAY)
        + command_ops(DISPLAY_COMMAND | DISPLAY_ON)
        + command_ops(CLEAR_SCREEN)
        + command_ops(ENTRY_MODE_COMMAND | ENTRY_RIGHT)
}

/// A fresh render: home, clear, the title on the first row, the artist on the second.
pub open spec fn render_ops(title: Seq<u8>, artist: Seq<u8>) -> Seq<BusOp> {
    command_ops(RETURN_HOME) + seq![BusOp::DelayMs(COMMAND_SETTLE_MS)]
        + command_ops(CLEAR_SCREEN) + seq![BusOp::DelayMs(COMMAND_SETTLE_MS)]
        + text_ops(title)
        + set_cursor_ops(1, 0)
        + text_ops(artist)
}

/// Queues one nibble: `data` with strobe and backlight set, then the same byte
/// with the strobe cleared, each followed by the settle delay.
pub fn write4bits(ops: &mut Vec<BusOp>, data: u8)
    ensures
        final(ops)@ == old(ops)@ + nibble_ops(data),
{
    let high: u8 = data | STROBE | BACKLIGHT;
    let low: u8 = high & !STROBE;
    ops.push(BusOp::Write(high));
    ops.push(BusOp::DelayMs(STROBE_SETTLE_MS));
    ops.push(BusOp::Write(low));
    ops.push(BusOp::DelayMs(STROBE_SETTLE_MS));
    assert(ops@ =~= old(ops)@ + nibble_ops(data));
}

/// Queues one byte as two nibbles, high nibble first, each with `mode`.
pub fn send(ops: &mut Vec<BusOp>, data: u8, mode: u8)
    ensures
        final(ops)@ == old(ops)@ + send_ops(data, mode),
{
    let high_bits: u8 = data & 0xF0;
    let low_bits: u8 = (data << 4) & 0xF0;
    write4bits(ops, high_bits | mode);
    write4bits(ops, low_bits | mode);
    assert(ops@ =~= old(ops)@ + send_ops(data, mode));
}

/// Queues one data byte (a character).
pub fn write(ops: &mut Vec<BusOp>, data: u8)
    ensures
        final(ops)@ == old(ops)@ + write_ops(data),
{
    send(ops, data, MODE_DATA);
}

/// Queues one command byte.
pub fn command(ops: &mut Vec<BusOp>, data: u8)
    ensures
        final(ops)@ == old(ops)@ + command_ops(data),
{
    send(ops, data, MODE_COMMAND);
}

/// Queues a settle delay.
pub fn delay_ms(ops: &mut Vec<BusOp>, ms: u32)
    ensures
        final(ops)@ == old(ops)@ + seq![BusOp::DelayMs(ms)],
{
    ops.push(BusOp::DelayMs(ms));
    assert(ops@ =~= old(ops)@ + seq![BusOp::DelayMs(ms)]);
}

/// Moves the cursor to `(row, col)` without an address command: return home,
/// settle, then exactly `row * 40 + col` "shift cursor right" commands.
pub fn set_cursor(ops: &mut Vec<BusOp>, row: u8, col: u8)
    ensures
        final(ops)@ == old(ops)@ + set_cursor_ops(row, col),
{
    command(ops, RETURN_HOME);
    delay_ms(ops, COMMAND_SETTLE_MS);
    let shift: u32 = (row as u32) * (ROW_WIDTH as u32) + (col as u32);
    let ghost head = ops@;
    let mut i: u32 = 0;
    while i < shift
        invariant
            i <= shift,
            shift as nat == shift_count(row, col),
            ops@ == head + shift_ops(i as nat),
        decreases shift - i,
    {
        command(ops, SHIFT_CURSOR);
        i = i + 1;
        assert(ops@ =~= head + shift_ops(i as nat));
    }
    assert(ops@ =~= old(ops)@ + set_cursor_ops(row, col));
}

/// Queues every byte of `text` as a data byte.
pub fn write_text(ops: &mut Vec<BusOp>, text: &[u8])
    ensures
        final(ops)@ == old(ops)@ + text_ops(text@),
{
    let ghost head = ops@;
    let mut i: usize = 0;
    while i < text.len()
        invariant
            i <= text.len(),
            ops@ == head + text_ops(text@.take(i as int)),
        decreases text.len() - i,
    {
        write(ops, text[i]);
        i = i + 1;
        assert(text@.take(i as int).drop_last() =~= text@.take(i - 1));
        assert(ops@ =~= head + text_ops(text@.take(i as int)));
    }
    assert(text@.take(i as int) =~= text@);
}

/// The initialization sequence for a controller in an unknown state.
pub fn init_sequence() -> (ops: Vec<BusOp>)
    ensures
        ops@ == init_ops(),
{
    let mut ops: Vec<BusOp> = Vec::new();
    delay_ms(&mut ops, POWER_ON_MS);
    write4bits(&mut ops, FUNCTION_SET | EIGHT_BIT_MODE);
    delay_ms(&mut ops, INIT_GAP_MS);
    write4bits(&mut ops, FUNCTION_SET | EIGHT_BIT_MODE);
    delay_ms(&mut ops, INIT_GAP_MS);
    write4bits(&mut ops, FUNCTION_SET | EIGHT_BIT_MODE);
    delay_ms(&mut ops, INIT_GAP_MS);
    write4bits(&mut ops, FUNCTION_SET);
    command(&mut ops, FUNCTION_SET | TWO_LINE_DISPLAY);
    command(&mut ops, DISPLAY_COMMAND | DISPLAY_ON);
    command(&mut ops, CLEAR_SCREEN);
    command(&mut ops, ENTRY_MODE_COMMAND | ENTRY_RIGHT);
    assert(ops@ =~= init_ops());
    ops
}

/// The sequence that shows `title` on the first row and `artist` on the second.
pub fn render_sequence(title: &[u8], artist: &[u8]) -> (ops: Vec<BusOp>)
    ensures
        ops@ == render_ops(title@, artist@),
{
    let mut ops: Vec<BusOp> = Vec::new();
    command(&mut ops, RETURN_HOME);
    delay_ms(&mut ops, COMMAND_SETTLE_MS);
    command(&mut ops, CLEAR_SCREEN);
    delay_ms(&mut ops, COMMAND_SETTLE_MS);
    write_text(&mut ops, title);
    set_cursor(&mut ops, 1, 0);
    write_text(&mut ops, artist);
    assert(ops@ =~= render_ops(title@, artist@));
    ops
}

/// For either mode, the two nibbles of a byte carry the byte's halves in their
/// upper four bits and the mode alone in their lower four: mode flag and nibble
/// bits never overlap.
pub proof fn lemma_nibbles_keep_mode(data: u8, mode: u8)
    requires
        mode == MODE_COMMAND || mode == MODE_DATA,
    ensures
        high_nibble(data, mode) & 0xF0 == data & 0xF0,
        high_nibble(data, mode) & 0x0F == mode,
        low_nibble(data, mode) & 0xF0 == (data & 0x0F) << 4,
        low_nibble(data, mode) & 0x0F == mode,
        send_ops(data, mode) == nibble_ops((data & 0xF0) | mode) + nibble_ops(
            ((data & 0x0F) << 4) | mode,
        ),
{
    assert(((data & 0xF0) | mode) & 0xF0 == data & 0xF0) by (bit_vector)
        requires
            mode == 0u8 || mode == 1u8,
    ;
    assert(((data & 0xF0) | mode) & 0x0F == mode) by (bit_vector)
        requires
            mode == 0u8 || mode == 1u8,
    ;
    assert((((data << 4) & 0xF0) | mode) & 0xF0 == (data & 0x0F) << 4) by (bit_vector)
        requires
            mode == 0u8 || mode == 1u8,
    ;
    assert((((data << 4) & 0xF0) | mode) & 0x0F == mode) by (bit_vector)
        requires
            mode == 0u8 || mode == 1u8,
    ;
    assert((data << 4) & 0xF0 == (data & 0x0F) << 4) by (bit_vector);
}

/// The byte `0xA5` goes out as the nibbles `0xA0 | mode` and `0x50 | mode`.
pub proof fn lemma_send_a5(mode: u8)
    requires
        mode == MODE_COMMAND || mode == MODE_DATA,
    ensures
        send_ops(0xA5, mode) == nibble_ops(0xA0 | mode) + nibble_ops(0x50 | mode),
{
    assert((0xA5u8 & 0xF0) | mode == 0xA0 | mode) by (bit_vector);
    assert(((0xA5u8 << 4) & 0xF0) | mode == 0x50 | mode) by (bit_vector);
}

/// The strobe-low byte differs from the strobe-high byte in the strobe bit alone,
/// and both carry the backlight bit.
pub proof fn lemma_strobe_edge(data: u8)
    ensures
        strobe_high(data) & STROBE == STROBE,
        strobe_low(data) & STROBE == 0,
        strobe_high(data) & !STROBE == strobe_low(data),
        strobe_high(data) & BACKLIGHT == BACKLIGHT,
        strobe_low(data) & BACKLIGHT == BACKLIGHT,
{
    assert((data | 0x04 | 0x08) & 0x04 == 0x04) by (bit_vector);
    assert(((data | 0x04 | 0x08) & !0x04u8) & 0x04 == 0) by (bit_vector);
    assert((data | 0x04 | 0x08) & 0x08 == 0x08) by (bit_vector);
    assert(((data | 0x04 | 0x08) & !0x04u8) & 0x08 == 0x08) by (bit_vector);
}

/// A reposition issues one shift command per cell: none for `(0, 0)`, forty for
/// `(1, 0)`, and in general `row * 40 + col`, each of eight bus steps, after the
/// nine steps of return-home and its settle delay.
pub proof fn lemma_set_cursor_len(row: u8, col: u8)
    ensures
        shift_count(0, 0) == 0,
        shift_count(1, 0) == 40,
        set_cursor_ops(0, 0) == command_ops(RETURN_HOME) + seq![BusOp::DelayMs(COMMAND_SETTLE_MS)],
        set_cursor_ops(1, 0) == command_ops(RETURN_HOME) + seq![BusOp::DelayMs(COMMAND_SETTLE_MS)]
            + shift_ops(40),
        set_cursor_ops(row, col) == command_ops(RETURN_HOME) + seq![
            BusOp::DelayMs(COMMAND_SETTLE_MS),
        ] + shift_ops(row as nat * 40 + col as nat),
        set_cursor_ops(row, col).len() == 9 + 8 * shift_count(row, col),
{
    lemma_shift_len(shift_count(row, col));
    assert(shift_ops(0) =~= Seq::<BusOp>::empty());
    assert(set_cursor_ops(0, 0) =~= command_ops(RETURN_HOME) + seq![
        BusOp::DelayMs(COMMAND_SETTLE_MS),
    ]);
}

/// `n` shift commands take eight bus steps each.
pub proof fn lemma_shift_len(n: nat)
    ensures
        shift_ops(n).len() == 8 * n,
    decreases n,
{
    if n > 0 {
        lemma_shift_len((n - 1) as nat);
    }
}

} // verus!
