//! The Razer HID feature report that asks the mouse for its battery level, and
//! the checks on the report that it answers with.
use vstd::prelude::*;
use crate::text::{hex_byte, push_hex_byte, push_str};

verus! {

/// Length of a Razer report without the HID report id.
pub const RAZER_REPORT_LEN: usize = 90;
/// Length of the HID feature report: the report id, then the Razer report.
pub const HID_REPORT_LEN: usize = RAZER_REPORT_LEN + 1;
/// Status byte of an answered command.
pub const STATUS_SUCCESS: u8 = 0x02;
/// Status byte of a command the device is still working on.
pub const STATUS_BUSY: u8 = 0x01;
/// Transaction id this library uses and expects back.
pub const TRANSACTION_ID: u8 = 0x1f;
/// Command class of miscellaneous commands.
pub const CMD_CLASS_MISC: u8 = 0x07;
/// Command id of "get battery level".
pub const CMD_GET_BATTERY: u8 = 0x80;
/// Data size of the battery command.
pub const BATTERY_DATA_SIZE: u8 = 0x02;

/// XOR of all bytes of `s`, folded from the first to the last.
pub open spec fn xor_fold(s: Seq<u8>) -> u8
    decreases s.len(),
{
    if s.len() == 0 {
        0
    } else {
        xor_fold(s.drop_last()) ^ s.last()
    }
}

/// The checksum of a report: the XOR of bytes 3 to 88.
pub open spec fn spec_crc(report: Seq<u8>) -> u8 {
    xor_fold(report.subrange(3, 89))
}

/// The request without its checksum: zero but for the transaction id at 2,
/// the data size at 6, the command class at 7 and the command id at 8.
pub open spec fn request_body() -> Seq<u8> {
    Seq::new(
        91,
        |i: int|
            if i == 2 {
                TRANSACTION_ID
            } else if i == 6 {
                BATTERY_DATA_SIZE
            } else if i == 7 {
                CMD_CLASS_MISC
            } else if i == 8 {
                CMD_GET_BATTERY
            } else {
                0u8
            },
    )
}

/// The battery request: the body with its checksum at byte 89.
pub open spec fn spec_request() -> Seq<u8> {
    request_body().update(89, spec_crc(request_body()))
}

/// Why a response is refused, in the words of the refusal, if it is.
pub open spec fn response_problem(r: Seq<u8>) -> Option<Seq<char>> {
    if !(r[1] == STATUS_SUCCESS || r[1] == STATUS_BUSY) {
        Some("unexpected status 0x"@ + hex_byte(r[1]))
    } else if r[2] != TRANSACTION_ID {
        Some("unexpected transaction id 0x"@ + hex_byte(r[2]))
    } else if r[6] != BATTERY_DATA_SIZE || r[7] != CMD_CLASS_MISC || r[8] != CMD_GET_BATTERY {
        Some(
            "unexpected response header size=0x"@ + hex_byte(r[6]) + " class=0x"@ + hex_byte(r[7])
                + " command=0x"@ + hex_byte(r[8]),
        )
    } else {
        None
    }
}

/// The battery level that an accepted response carries: byte 10.
pub open spec fn response_level(r: Seq<u8>) -> u8 {
    r[10]
}

/// The percentage shown for a raw battery level: `raw * 100 / 255` rounded
/// to the nearest integer, capped at 100.
pub open spec fn spec_raw_to_percent(raw: int) -> int {
    let p = (raw * 100 + 127) / 255;
    if p < 100 {
        p
    } else {
        100
    }
}

/// The XOR of bytes 3 to 88 of the report.
pub fn calculate_crc(report: &[u8; HID_REPORT_LEN]) -> (crc: u8)
    ensures
        crc == spec_crc(report@),
{
    let mut crc: u8 = 0;
    let mut i: usize = 3;
    while i < 89
        invariant
            3 <= i <= 89,
            report@.len() == 91,
            crc == xor_fold(report@.subrange(3, i as int)),
        decreases 89 - i,
    {
        assert(report@.subrange(3, i + 1).drop_last() =~= report@.subrange(3, i as int));
        crc = crc ^ report[i];
        i = i + 1;
    }
    crc
}

/// The feature report that asks the mouse for its battery level.
pub fn build_report() -> (report: [u8; HID_REPORT_LEN])
    ensures
        report@ == spec_request(),
        report@.len() == HID_REPORT_LEN,
        report[89] == spec_crc(report@),
{
    let mut report = [0u8; HID_REPORT_LEN];
    report[2] = TRANSACTION_ID;
    report[6] = BATTERY_DATA_SIZE;
    report[7] = CMD_CLASS_MISC;
    report[8] = CMD_GET_BATTERY;
    assert(report@ =~= request_body());
    let crc = calculate_crc(&report);
    report[89] = crc;
    assert(report@ =~= spec_request());
    assert(report@.subrange(3, 89) =~= request_body().subrange(3, 89));
    report
}

/// Checks the status, transaction id and command header of a response, and
/// gives the battery level it carries or the reason it is refused.
pub fn validate_response(response: &[u8; HID_REPORT_LEN]) -> (res: Result<u8, String>)
    ensures
        match res {
            Ok(level) => response_problem(response@) is None && level == response_level(response@),
            Err(message) => response_problem(response@) == Some(message@),
        },
{
    let status = response[1];
    if !(status == STATUS_SUCCESS || status == STATUS_BUSY) {
        let mut message = String::new();
        push_str(&mut message, "unexpected status 0x");
        push_hex_byte(&mut message, status);
        return Err(message);
    }
    if response[2] != TRANSACTION_ID {
        let mut message = String::new();
        push_str(&mut message, "unexpected transaction id 0x");
        push_hex_byte(&mut message, response[2]);
        return Err(message);
    }
    if response[6] != BATTERY_DATA_SIZE || response[7] != CMD_CLASS_MISC || response[8]
        != CMD_GET_BATTERY {
        let mut message = String::new();
        push_str(&mut message, "unexpected response header size=0x");
        push_hex_byte(&mut message, response[6]);
        push_str(&mut message, " class=0x");
        push_hex_byte(&mut message, response[7]);
        push_str(&mut message, " command=0x");
        push_hex_byte(&mut message, response[8]);
        return Err(message);
    }
    Ok(response[10])
}

/// The percentage shown for a raw battery level.
pub fn raw_to_percent(raw: u8) -> (percent: u8)
    ensures
        percent == spec_raw_to_percent(raw as int),
        percent <= 100,
{
    let scaled: u16 = ((raw as u16) * 100 + 127) / 255;
    if scaled < 100 {
        scaled as u8
    } else {
        100
    }
}



/// A response is accepted exactly when its status is success or busy and it
/// echoes the transaction id, data size, command class and command id of the
/// request that `build_report` makes.
pub proof fn lemma_accepts_exactly_echoed_header(r: Seq<u8>)
    requires
        r.len() == HID_REPORT_LEN,
    ensures
        response_problem(r) is None <==> {
            &&& (r[1] == STATUS_SUCCESS || r[1] == STATUS_BUSY)
            &&& r[2] == spec_request()[2]
            &&& r[6] == spec_request()[6]
            &&& r[7] == spec_request()[7]
            &&& r[8] == spec_request()[8]
        },
{
}

/// A higher raw level never shows a lower percentage.
pub proof fn lemma_percent_monotone(a: u8, b: u8)
    requires
        a <= b,
    ensures
        spec_raw_to_percent(a as int) <= spec_raw_to_percent(b as int),
{
    let x = a as int;
    let y = b as int;
    assert((x * 100 + 127) / 255 <= (y * 100 + 127) / 255) by (nonlinear_arith)
        requires
            0 <= x <= y,
    ;
}

/// The percentage is the raw level scaled from 0..=255 to 0..=100 and rounded
/// to the nearest integer: it is off by at most half a step, and the ends of
/// the scale map to 0 and 100.
pub proof fn lemma_percent_is_rounded_scale(raw: u8)
    ensures
        0 <= spec_raw_to_percent(raw as int) <= 100,
        -255 <= 2 * (255 * spec_raw_to_percent(raw as int) - 100 * raw) <= 255,
        spec_raw_to_percent(0) == 0,
        spec_raw_to_percent(255) == 100,
{
    let x = raw as int;
    let p = (x * 100 + 127) / 255;
    assert(255 * p <= x * 100 + 127 < 255 * p + 255) by (nonlinear_arith)
        requires
            p == (x * 100 + 127) / 255,
            0 <= x,
    ;
    assert(p <= 100) by (nonlinear_arith)
        requires
            p == (x * 100 + 127) / 255,
            0 <= x <= 255,
    ;
}

} // verus!
