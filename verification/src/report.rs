use vstd::prelude::*;

use crate::error::ParseError;
use crate::state::{resting_state, XboxButtonState, XboxControllerState, XboxSticks, XboxTriggers};

verus! {

/// Length of the currently supported Xbox Series input report.
pub const INPUT_REPORT_LEN: usize = 16;

/// The little-endian 16-bit value stored at `offset` and `offset + 1`.
pub open spec fn report_u16(bytes: Seq<u8>, offset: int) -> int {
    bytes[offset] as int + 256 * (bytes[offset + 1] as int)
}

/// A stick axis: the unsigned value at `offset` shifted so that `0x8000` is zero.
pub open spec fn report_axis(bytes: Seq<u8>, offset: int) -> int {
    report_u16(bytes, offset) - 0x8000
}

/// Whether any bit of `mask` is set in `byte`.
pub open spec fn has_bit(byte: u8, mask: u8) -> bool {
    byte & mask != 0
}

/// Hat-switch positions (1 = north, clockwise to 8 = north-west) that include up.
pub open spec fn hat_up(hat: u8) -> bool {
    hat == 1 || hat == 2 || hat == 8
}

/// Hat-switch positions that include right.
pub open spec fn hat_right(hat: u8) -> bool {
    2 <= hat <= 4
}

/// Hat-switch positions that include down.
pub open spec fn hat_down(hat: u8) -> bool {
    4 <= hat <= 6
}

/// Hat-switch positions that include left.
pub open spec fn hat_left(hat: u8) -> bool {
    6 <= hat <= 8
}

/// The buttons encoded in a report: hat at byte 12, main buttons at 13,
/// center buttons at 14, Share at 15.
pub open spec fn report_buttons(bytes: Seq<u8>) -> XboxButtonState {
    let main = bytes[13];
    let center = bytes[14];
    let hat = bytes[12];
    XboxButtonState {
        a: has_bit(main, 0x01),
        b: has_bit(main, 0x02),
        x: has_bit(main, 0x08),
        y: has_bit(main, 0x10),
        lb: has_bit(main, 0x40),
        rb: has_bit(main, 0x80),
        view: has_bit(center, 0x04),
        menu: has_bit(center, 0x08),
        xbox: has_bit(center, 0x10),
        left_stick_button: has_bit(center, 0x20),
        right_stick_button: has_bit(center, 0x40),
        share: has_bit(bytes[15], 0x01),
        dpad_up: hat_up(hat),
        dpad_right: hat_right(hat),
        dpad_down: hat_down(hat),
        dpad_left: hat_left(hat),
    }
}

/// The sticks encoded in bytes 0..8 (left x, left y, right x, right y).
pub open spec fn report_sticks(bytes: Seq<u8>) -> XboxSticks {
    XboxSticks {
        left_x: report_axis(bytes, 0) as i16,
        left_y: report_axis(bytes, 2) as i16,
        right_x: report_axis(bytes, 4) as i16,
        right_y: report_axis(bytes, 6) as i16,
    }
}

/// The triggers encoded in bytes 8..12 (left, right).
pub open spec fn report_triggers(bytes: Seq<u8>) -> XboxTriggers {
    XboxTriggers { left: report_u16(bytes, 8) as u16, right: report_u16(bytes, 10) as u16 }
}

/// The controller state that a report of at least 16 bytes encodes.
pub open spec fn report_state(bytes: Seq<u8>) -> XboxControllerState {
    XboxControllerState {
        buttons: report_buttons(bytes),
        sticks: report_sticks(bytes),
        triggers: report_triggers(bytes),
    }
}

/// What parsing `bytes` yields: the encoded state, or `TooShort` below 16 bytes.
pub open spec fn parse_result(bytes: Seq<u8>) -> Result<XboxControllerState, ParseError> {
    if bytes.len() < INPUT_REPORT_LEN {
        Err(ParseError::TooShort { expected: INPUT_REPORT_LEN, actual: bytes.len() as usize })
    } else {
        Ok(report_state(bytes))
    }
}

/// Parse an Xbox Series controller BLE input notification.
///
/// This supports the 16-byte layout of the Xbox Series controller's input
/// notification. The report ID belongs to the GATT Report
/// characteristic/descriptor and is therefore not present in these bytes.
/// Bytes after the first 16 are ignored.
pub fn parse_input_report(bytes: &[u8]) -> (res: Result<XboxControllerState, ParseError>)
    ensures
        res == parse_result(bytes@),
        res is Ok <==> bytes@.len() >= INPUT_REPORT_LEN,
{
    if bytes.len() < INPUT_REPORT_LEN {
        return Err(ParseError::TooShort { expected: INPUT_REPORT_LEN, actual: bytes.len() });
    }
    let main = bytes[13];
    let center = bytes[14];
    let dpad = bytes[12];

    Ok(
        XboxControllerState {
            buttons: XboxButtonState {
                a: main & 0x01 != 0,
                b: main & 0x02 != 0,
                x: main & 0x08 != 0,
                y: main & 0x10 != 0,
                lb: main & 0x40 != 0,
                rb: main & 0x80 != 0,
                view: center & 0x04 != 0,
                menu: center & 0x08 != 0,
                xbox: center & 0x10 != 0,
                left_stick_button: center & 0x20 != 0,
                right_stick_button: center & 0x40 != 0,
                share: bytes[15] & 0x01 != 0,
                dpad_up: dpad == 1 || dpad == 2 || dpad == 8,
                dpad_right: 2 <= dpad && dpad <= 4,
                dpad_down: 4 <= dpad && dpad <= 6,
                dpad_left: 6 <= dpad && dpad <= 8,
            },
            sticks: XboxSticks {
                left_x: centered_axis(bytes, 0),
                left_y: centered_axis(bytes, 2),
                right_x: centered_axis(bytes, 4),
                right_y: centered_axis(bytes, 6),
            },
            triggers: XboxTriggers { left: u16_at(bytes, 8), right: u16_at(bytes, 10) },
        },
    )
}

/// The little-endian `u16` at `offset`.
fn u16_at(bytes: &[u8], offset: usize) -> (v: u16)
    requires
        offset + 1 < bytes.len(),
    ensures
        v as int == report_u16(bytes@, offset as int),
{
    (bytes[offset + 1] as u16) * 256 + (bytes[offset] as u16)
}

/// The little-endian `u16` at `offset`, recentered so that `0x8000` reads as zero.
fn centered_axis(bytes: &[u8], offset: usize) -> (v: i16)
    requires
        offset + 1 < bytes.len(),
    ensures
        v as int == report_axis(bytes@, offset as int),
{
    ((u16_at(bytes, offset) as i32) - 0x8000) as i16
}


/// Only the first 16 bytes of a notification matter: two notifications of at
/// least 16 bytes that agree on those bytes parse to the same state, whatever
/// transport metadata follows.
pub proof fn lemma_trailing_bytes_ignored(a: Seq<u8>, b: Seq<u8>)
    requires
        a.len() >= INPUT_REPORT_LEN,
        b.len() >= INPUT_REPORT_LEN,
        a.take(INPUT_REPORT_LEN as int) == b.take(INPUT_REPORT_LEN as int),
    ensures
        parse_result(a) == parse_result(b),
{
    assert forall|i: int| 0 <= i < INPUT_REPORT_LEN implies a[i] == b[i] by {
        assert(a[i] == a.take(INPUT_REPORT_LEN as int)[i]);
        assert(b[i] == b.take(INPUT_REPORT_LEN as int)[i]);
    }
}

/// The D-pad never reports two opposite directions at once.
pub proof fn lemma_dpad_never_opposite(bytes: Seq<u8>)
    requires
        bytes.len() >= INPUT_REPORT_LEN,
    ensures
        !(report_buttons(bytes).dpad_up && report_buttons(bytes).dpad_down),
        !(report_buttons(bytes).dpad_left && report_buttons(bytes).dpad_right),
{
}

/// Stick parsing is exact: each axis is its unsigned little-endian value
/// minus `0x8000`, so `0..=65535` maps onto all of `-32768..=32767`.
pub proof fn lemma_axis_exact(bytes: Seq<u8>, offset: int)
    requires
        0 <= offset,
        offset + 1 < bytes.len(),
    ensures
        0 <= report_u16(bytes, offset) <= 0xffff,
        i16::MIN <= report_axis(bytes, offset) <= i16::MAX,
        (report_axis(bytes, offset) as i16) as int == report_u16(bytes, offset) - 0x8000,
{
}

/// The analog part loses no information: the parsed sticks and triggers of
/// two reports agree exactly when their first 12 bytes agree.
pub proof fn lemma_analog_values_determine_bytes(a: Seq<u8>, b: Seq<u8>)
    requires
        a.len() >= INPUT_REPORT_LEN,
        b.len() >= INPUT_REPORT_LEN,
    ensures
        (report_sticks(a) == report_sticks(b) && report_triggers(a) == report_triggers(b))
            <==> a.take(12) == b.take(12),
{
    lemma_u16_bytes(a, b, 0);
    lemma_u16_bytes(a, b, 2);
    lemma_u16_bytes(a, b, 4);
    lemma_u16_bytes(a, b, 6);
    lemma_u16_bytes(a, b, 8);
    lemma_u16_bytes(a, b, 10);
    lemma_axis_exact(a, 0);
    lemma_axis_exact(a, 2);
    lemma_axis_exact(a, 4);
    lemma_axis_exact(a, 6);
    lemma_axis_exact(b, 0);
    lemma_axis_exact(b, 2);
    lemma_axis_exact(b, 4);
    lemma_axis_exact(b, 6);
    if a.take(12) == b.take(12) {
        assert forall|i: int| 0 <= i < 12 implies a[i] == b[i] by {
            assert(a[i] == a.take(12)[i]);
            assert(b[i] == b.take(12)[i]);
        }
    }
    if report_sticks(a) == report_sticks(b) && report_triggers(a) == report_triggers(b) {
        assert(a.take(12) =~= b.take(12));
    }
}

/// Two little-endian byte pairs encode the same value exactly when the bytes agree.
proof fn lemma_u16_bytes(a: Seq<u8>, b: Seq<u8>, k: int)
    requires
        0 <= k,
        k + 1 < a.len(),
        k + 1 < b.len(),
    ensures
        report_u16(a, k) == report_u16(b, k) <==> (a[k] == b[k] && a[k + 1] == b[k + 1]),
{
}

/// A neutral report (sticks at `0x8000`, everything else zero) parses to the
/// resting state.
pub proof fn lemma_neutral_report_is_resting(bytes: Seq<u8>)
    requires
        bytes.len() >= INPUT_REPORT_LEN,
        forall|i: int| 0 <= i < INPUT_REPORT_LEN ==> #[trigger] bytes[i] == (if i < 8 && i % 2
            == 1 { 0x80u8 } else { 0u8 }),
    ensures
        parse_result(bytes) == Ok::<XboxControllerState, ParseError>(resting_state()),
{
    assert(forall|m: u8| #[trigger] (0u8 & m) == 0) by (bit_vector);
    assert(bytes[0] == 0 && bytes[1] == 0x80 && bytes[2] == 0 && bytes[3] == 0x80);
    assert(bytes[4] == 0 && bytes[5] == 0x80 && bytes[6] == 0 && bytes[7] == 0x80);
    assert(bytes[8] == 0 && bytes[9] == 0 && bytes[10] == 0 && bytes[11] == 0);
    assert(bytes[12] == 0 && bytes[13] == 0 && bytes[14] == 0 && bytes[15] == 0);
}

/// The report layout, bit for bit: a notification of at least 16 bytes
/// parses to the state whose buttons are the documented bits of bytes 12..16
/// (A 0x01, B 0x02, X 0x08, Y 0x10, LB 0x40, RB 0x80 of byte 13; View 0x04,
/// Menu 0x08, Xbox 0x10, left stick 0x20, right stick 0x40 of byte 14; Share
/// 0x01 of byte 15; the hat at byte 12, 1 = north clockwise to 8 =
/// north-west), whose sticks are the little-endian words at bytes 0, 2, 4, 6
/// less 0x8000, and whose triggers are the words at bytes 8 and 10; a shorter
/// one is refused as too short, naming 16 and its length.
pub proof fn lemma_report_layout(bytes: Seq<u8>)
    ensures
        bytes.len() < 16 ==> parse_result(bytes) == Err::<XboxControllerState, ParseError>(
            ParseError::TooShort { expected: 16, actual: bytes.len() as usize },
        ),
        bytes.len() >= 16 ==> parse_result(bytes) is Ok,
        bytes.len() >= 16 ==> ({
            let s = parse_result(bytes)->Ok_0;
            let b = s.buttons;
            &&& b.a == (bytes[13] & 0x01 != 0)
            &&& b.b == (bytes[13] & 0x02 != 0)
            &&& b.x == (bytes[13] & 0x08 != 0)
            &&& b.y == (bytes[13] & 0x10 != 0)
            &&& b.lb == (bytes[13] & 0x40 != 0)
            &&& b.rb == (bytes[13] & 0x80 != 0)
            &&& b.view == (bytes[14] & 0x04 != 0)
            &&& b.menu == (bytes[14] & 0x08 != 0)
            &&& b.xbox == (bytes[14] & 0x10 != 0)
            &&& b.left_stick_button == (bytes[14] & 0x20 != 0)
            &&& b.right_stick_button == (bytes[14] & 0x40 != 0)
            &&& b.share == (bytes[15] & 0x01 != 0)
            &&& b.dpad_up == (bytes[12] == 8 || bytes[12] == 1 || bytes[12] == 2)
            &&& b.dpad_right == (bytes[12] == 2 || bytes[12] == 3 || bytes[12] == 4)
            &&& b.dpad_down == (bytes[12] == 4 || bytes[12] == 5 || bytes[12] == 6)
            &&& b.dpad_left == (bytes[12] == 6 || bytes[12] == 7 || bytes[12] == 8)
            &&& s.sticks.left_x as int == bytes[0] + 256 * bytes[1] - 32768
            &&& s.sticks.left_y as int == bytes[2] + 256 * bytes[3] - 32768
            &&& s.sticks.right_x as int == bytes[4] + 256 * bytes[5] - 32768
            &&& s.sticks.right_y as int == bytes[6] + 256 * bytes[7] - 32768
            &&& s.triggers.left as int == bytes[8] + 256 * bytes[9]
            &&& s.triggers.right as int == bytes[10] + 256 * bytes[11]
        }),
{
    if bytes.len() >= 16 {
        lemma_axis_exact(bytes, 0);
        lemma_axis_exact(bytes, 2);
        lemma_axis_exact(bytes, 4);
        lemma_axis_exact(bytes, 6);
    }
}

} // verus!
