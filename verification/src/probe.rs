//! The hardware probe report: what the enumeration found and what the battery
//! read gave, one line each.
use vstd::prelude::*;
use crate::hid_path::{candidate_views, path_interface_hint, spec_path_interface_hint, HidCandidate};
use crate::reader::{result_view, BatteryError, BatteryReading};
use crate::text::{decimal, hex_word, join, join_strings, owned, push_decimal, push_hex_word, push_str, views};

verus! {

/// The line for one device found.
pub open spec fn found_line(verbose: bool, c: (Seq<char>, u16)) -> Seq<char> {
    "found PID "@ + hex_word(c.1) + ", product Razer Viper V4 Pro, "@ + if verbose {
        "path "@ + c.0
    } else {
        "interface "@ + spec_path_interface_hint(c.0)
    }
}

/// The lines for the enumeration.
pub open spec fn enumeration_lines(
    verbose: bool,
    candidates: Result<Seq<(Seq<char>, u16)>, Seq<char>>,
) -> Seq<Seq<char>> {
    match candidates {
        Err(e) => seq!["HID enumeration failed: "@ + e],
        Ok(c) => if c.len() == 0 {
            seq!["no Viper V4 Pro HID devices found"@]
        } else {
            Seq::new(c.len(), |i: int| found_line(verbose, c[i]))
        },
    }
}

/// The line for the battery read.
pub open spec fn battery_line(reading: Result<BatteryReading, Seq<char>>) -> Seq<char> {
    match reading {
        Ok(r) => "battery: "@ + decimal(r.percent as nat) + "% raw="@ + decimal(r.raw as nat),
        Err(e) => "battery read failed: "@ + e,
    }
}

/// All lines of the probe report.
pub open spec fn probe_lines(
    verbose: bool,
    candidates: Result<Seq<(Seq<char>, u16)>, Seq<char>>,
    reading: Result<BatteryReading, Seq<char>>,
) -> Seq<Seq<char>> {
    seq!["Razer Battery Display probe"@] + enumeration_lines(verbose, candidates) + seq![
        battery_line(reading),
    ]
}

/// The model of an enumeration outcome.
pub open spec fn enumeration_view(r: Result<Vec<HidCandidate>, BatteryError>) -> Result<
    Seq<(Seq<char>, u16)>,
    Seq<char>,
> {
    match r {
        Ok(c) => Ok(candidate_views(c@)),
        Err(e) => Err(e@),
    }
}

fn found_line_text(verbose: bool, c: &HidCandidate) -> (line: String)
    ensures
        line@ == found_line(verbose, c@),
{
    let mut line = String::new();
    push_str(&mut line, "found PID ");
    push_hex_word(&mut line, c.pid);
    push_str(&mut line, ", product Razer Viper V4 Pro, ");
    if verbose {
        push_str(&mut line, "path ");
        push_str(&mut line, c.path.as_str());
    } else {
        push_str(&mut line, "interface ");
        let hint = path_interface_hint(c.path.as_str());
        push_str(&mut line, hint.as_str());
    }
    assert(line@ =~= found_line(verbose, c@));
    line
}

fn battery_line_text(reading: &Result<BatteryReading, BatteryError>) -> (line: String)
    ensures
        line@ == battery_line(result_view(*reading)),
{
    let mut line = String::new();
    match reading {
        Ok(r) => {
            push_str(&mut line, "battery: ");
            push_decimal(&mut line, r.percent);
            push_str(&mut line, "% raw=");
            push_decimal(&mut line, r.raw);
        },
        Err(e) => {
            push_str(&mut line, "battery read failed: ");
            let m = e.message();
            push_str(&mut line, m.as_str());
        },
    }
    assert(line@ =~= battery_line(result_view(*reading)));
    line
}

/// The probe report, given what the enumeration and the battery read gave.
pub fn probe_report_inner(
    verbose: bool,
    candidates: &Result<Vec<HidCandidate>, BatteryError>,
    reading: &Result<BatteryReading, BatteryError>,
) -> (report: String)
    ensures
        report@ == join(
            probe_lines(verbose, enumeration_view(*candidates), result_view(*reading)),
            "\n"@,
        ),
{
    let ghost expected = probe_lines(verbose, enumeration_view(*candidates), result_view(*reading));
    let mut lines: Vec<String> = Vec::new();
    lines.push(owned("Razer Battery Display probe"));
    match candidates {
        Err(e) => {
            let mut line = String::new();
            push_str(&mut line, "HID enumeration failed: ");
            let m = e.message();
            push_str(&mut line, m.as_str());
            lines.push(line);
        },
        Ok(c) => {
            if c.len() == 0 {
                lines.push(owned("no Viper V4 Pro HID devices found"));
            } else {
                let ghost found = enumeration_lines(verbose, enumeration_view(*candidates));
                let mut i: usize = 0;
                while i < c.len()
                    invariant
                        i <= c.len(),
                        found.len() == c.len(),
                        forall|k: int| 0 <= k < c.len() ==> #[trigger] found[k] == found_line(verbose, c@[k]@),
                        views(lines@) =~= seq!["Razer Battery Display probe"@] + found.take(i as int),
                    decreases c.len() - i,
                {
                    let line = found_line_text(verbose, &c[i]);
                    let ghost before = views(lines@);
                    lines.push(line);
                    assert(views(lines@) =~= before.push(line@));
                    assert(found.take(i + 1) =~= found.take(i as int).push(found[i as int]));
                    i = i + 1;
                }
                assert(found.take(c.len() as int) =~= found);
            }
        },
    }
    let last = battery_line_text(reading);
    lines.push(last);
    assert(views(lines@) =~= expected);
    join_strings(&lines, "\n")
}

/// The probe report with each device's interface name.
pub fn probe_report(
    candidates: &Result<Vec<HidCandidate>, BatteryError>,
    reading: &Result<BatteryReading, BatteryError>,
) -> (report: String)
    ensures
        report@ == join(
            probe_lines(false, enumeration_view(*candidates), result_view(*reading)),
            "\n"@,
        ),
{
    probe_report_inner(false, candidates, reading)
}

/// The probe report with each device's full instance path.
pub fn probe_report_verbose(
    candidates: &Result<Vec<HidCandidate>, BatteryError>,
    reading: &Result<BatteryReading, BatteryError>,
) -> (report: String)
    ensures
        report@ == join(
            probe_lines(true, enumeration_view(*candidates), result_view(*reading)),
            "\n"@,
        ),
{
    probe_report_inner(true, candidates, reading)
}

} // verus!
