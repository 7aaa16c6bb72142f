use razer_battery::exchange::{ExchangeAction, ExchangeEvent, ExchangePhase, FeatureExchange};
use razer_battery::hid_path::{candidates_from_paths, HidCandidate};
use razer_battery::probe::{probe_report, probe_report_inner, probe_report_verbose};
use razer_battery::reader::{BatteryError, BatteryReader, BatteryReading, ReadAction, ReadEvent};
use razer_battery::report::{build_report, HID_REPORT_LEN};

const WIRELESS: &str = r"\\?\hid#vid_1532&pid_00e6&mi_03#b&1d7ae382&0&0000#{x}";
const WIRED: &str = r"\\?\hid#vid_1532&pid_00e5&mi_04#b&1d7ae382&0&0000#{x}";

fn err(text: &str) -> BatteryError {
    BatteryError::new(text.to_string())
}

fn candidates() -> Vec<HidCandidate> {
    candidates_from_paths(&vec![WIRED.to_string(), WIRELESS.to_string()])
}

fn query_path(action: ReadAction) -> String {
    match action {
        ReadAction::QueryPath(p) => p,
        _ => panic!("expected a query"),
    }
}

fn finished(action: ReadAction) -> Result<BatteryReading, BatteryError> {
    match action {
        ReadAction::Finished(r) => r,
        _ => panic!("expected the end of the read"),
    }
}

#[test]
fn fresh_reader_enumerates_first() {
    let mut reader = BatteryReader::new();
    assert!(reader.awaits(&ReadEvent::Start));
    assert!(!reader.awaits(&ReadEvent::PathRead(Ok(1))));
    assert!(matches!(reader.read(ReadEvent::Start), ReadAction::Enumerate));
    assert!(reader.awaits(&ReadEvent::Enumerated(Ok(Vec::new()))));
}

#[test]
fn no_candidates_is_not_found() {
    let mut reader = BatteryReader::new();
    reader.read(ReadEvent::Start);
    let result = finished(reader.read(ReadEvent::Enumerated(Ok(Vec::new()))));
    assert_eq!(
        result.unwrap_err().message(),
        "Razer Viper V4 Pro battery interface was not found over USB."
    );
}

#[test]
fn enumeration_error_is_passed_on() {
    let mut reader = BatteryReader::new();
    reader.read(ReadEvent::Start);
    let result = finished(reader.read(ReadEvent::Enumerated(Err(err("SetupDiGetClassDevsW failed: x")))));
    assert_eq!(result.unwrap_err().message(), "SetupDiGetClassDevsW failed: x");
    assert!(reader.awaits(&ReadEvent::Start));
}

#[test]
fn first_working_candidate_is_remembered_and_tried_first() {
    let mut reader = BatteryReader::new();
    reader.read(ReadEvent::Start);
    let first = query_path(reader.read(ReadEvent::Enumerated(Ok(candidates()))));
    assert_eq!(first, WIRELESS);
    let second = query_path(reader.read(ReadEvent::PathRead(Err(err("open failed: nope")))));
    assert_eq!(second, WIRED);
    let reading = finished(reader.read(ReadEvent::PathRead(Ok(128)))).unwrap();
    assert_eq!(reading, BatteryReading { percent: 50, raw: 128 });

    let again = query_path(reader.read(ReadEvent::Start));
    assert_eq!(again, WIRED);
    let reading = finished(reader.read(ReadEvent::PathRead(Ok(255)))).unwrap();
    assert_eq!(reading, BatteryReading { percent: 100, raw: 255 });
}

#[test]
fn failing_cached_path_is_forgotten() {
    let mut reader = BatteryReader::new();
    reader.read(ReadEvent::Start);
    reader.read(ReadEvent::Enumerated(Ok(candidates())));
    finished(reader.read(ReadEvent::PathRead(Ok(10)))).unwrap();
    assert_eq!(query_path(reader.read(ReadEvent::Start)), WIRELESS);
    assert!(matches!(reader.read(ReadEvent::PathRead(Err(err("gone")))), ReadAction::Enumerate));
    finished(reader.read(ReadEvent::Enumerated(Ok(Vec::new())))).unwrap_err();
    assert!(matches!(reader.read(ReadEvent::Start), ReadAction::Enumerate));
}

#[test]
fn all_failures_are_reported() {
    let mut reader = BatteryReader::new();
    reader.read(ReadEvent::Start);
    reader.read(ReadEvent::Enumerated(Ok(candidates())));
    reader.read(ReadEvent::PathRead(Err(err("boom"))));
    let result = finished(reader.read(ReadEvent::PathRead(Err(err("bang")))));
    assert_eq!(
        result.unwrap_err().message(),
        "Found the mouse, but could not read battery. PID 00E6: boom | PID 00E5: bang"
    );
}

#[test]
fn unsafe_candidate_is_refused_without_a_query() {
    let unsafe_candidate = HidCandidate {
        path: r"\\?\hid#vid_1532&pid_00e6&mi_01&col02#x".to_string(),
        pid: 0x00e6,
    };
    let mut reader = BatteryReader::new();
    reader.read(ReadEvent::Start);
    let result = finished(reader.read(ReadEvent::Enumerated(Ok(vec![unsafe_candidate]))));
    assert_eq!(
        result.unwrap_err().message(),
        "Found the mouse, but could not read battery. PID 00E6: refusing to query a non-battery HID interface"
    );

    let mixed = vec![
        HidCandidate { path: "mouse input".to_string(), pid: 0x00e5 },
        HidCandidate { path: WIRELESS.to_string(), pid: 0x00e6 },
    ];
    let mut reader = BatteryReader::new();
    reader.read(ReadEvent::Start);
    assert_eq!(query_path(reader.read(ReadEvent::Enumerated(Ok(mixed)))), WIRELESS);
    let result = finished(reader.read(ReadEvent::PathRead(Err(err("x")))));
    assert_eq!(
        result.unwrap_err().message(),
        "Found the mouse, but could not read battery. PID 00E5: refusing to query a non-battery HID interface | PID 00E6: x"
    );
}

fn valid_response(level: u8) -> [u8; HID_REPORT_LEN] {
    let mut response = build_report();
    response[1] = 0x02;
    response[10] = level;
    response
}

#[test]
fn exchange_succeeds_on_first_attempt() {
    let mut x = FeatureExchange::new();
    assert_eq!(x.phase(), ExchangePhase::Ready);
    match x.read_battery_byte(ExchangeEvent::Start) {
        ExchangeAction::SendFeature(r) => assert_eq!(r, build_report()),
        _ => panic!(),
    }
    assert!(matches!(x.read_battery_byte(ExchangeEvent::Sent(Ok(()))), ExchangeAction::Sleep(65)));
    assert!(matches!(x.read_battery_byte(ExchangeEvent::Slept), ExchangeAction::ReceiveFeature));
    match x.read_battery_byte(ExchangeEvent::Received(Ok(valid_response(99)))) {
        ExchangeAction::Finished(Ok(level)) => assert_eq!(level, 99),
        _ => panic!(),
    }
    assert_eq!(x.phase(), ExchangePhase::Done);
    assert!(!x.awaits(&ExchangeEvent::Slept));
}

#[test]
fn exchange_retries_once_then_gives_up() {
    let mut x = FeatureExchange::new();
    x.read_battery_byte(ExchangeEvent::Start);
    assert!(matches!(
        x.read_battery_byte(ExchangeEvent::Sent(Err("denied".to_string()))),
        ExchangeAction::Sleep(50)
    ));
    assert!(matches!(x.read_battery_byte(ExchangeEvent::Slept), ExchangeAction::SendFeature(_)));
    x.read_battery_byte(ExchangeEvent::Sent(Ok(())));
    x.read_battery_byte(ExchangeEvent::Slept);
    assert!(matches!(
        x.read_battery_byte(ExchangeEvent::Received(Err("gone".to_string()))),
        ExchangeAction::Sleep(75)
    ));
    match x.read_battery_byte(ExchangeEvent::Slept) {
        ExchangeAction::Finished(Err(e)) => assert_eq!(e.message(), "HidD_GetFeature failed: gone"),
        _ => panic!(),
    }
}

#[test]
fn refused_response_is_retried() {
    let mut x = FeatureExchange::new();
    x.read_battery_byte(ExchangeEvent::Start);
    x.read_battery_byte(ExchangeEvent::Sent(Ok(())));
    x.read_battery_byte(ExchangeEvent::Slept);
    let mut bad = valid_response(5);
    bad[1] = 0x05;
    assert!(matches!(x.read_battery_byte(ExchangeEvent::Received(Ok(bad))), ExchangeAction::Sleep(75)));
    assert!(matches!(x.read_battery_byte(ExchangeEvent::Slept), ExchangeAction::SendFeature(_)));
    assert!(matches!(
        x.read_battery_byte(ExchangeEvent::Sent(Err("x".to_string()))),
        ExchangeAction::Sleep(50)
    ));
    match x.read_battery_byte(ExchangeEvent::Slept) {
        ExchangeAction::Finished(Err(e)) => assert_eq!(e.message(), "HidD_SetFeature failed: x"),
        _ => panic!(),
    }
}

#[test]
fn probe_lists_interfaces_and_battery() {
    let found = Ok(candidates());
    let reading = Ok(BatteryReading { percent: 50, raw: 128 });
    assert_eq!(
        probe_report(&found, &reading),
        "Razer Battery Display probe\n\
         found PID 00E6, product Razer Viper V4 Pro, interface mi_03\n\
         found PID 00E5, product Razer Viper V4 Pro, interface mi_04\n\
         battery: 50% raw=128"
    );
    assert_eq!(
        probe_report_verbose(&found, &reading),
        format!(
            "Razer Battery Display probe\n\
             found PID 00E6, product Razer Viper V4 Pro, path {WIRELESS}\n\
             found PID 00E5, product Razer Viper V4 Pro, path {WIRED}\n\
             battery: 50% raw=128"
        )
    );
}

#[test]
fn probe_reports_failures() {
    let none: Result<Vec<HidCandidate>, BatteryError> = Ok(Vec::new());
    let failed: Result<BatteryReading, BatteryError> = Err(err("no mouse"));
    assert_eq!(
        probe_report_inner(false, &none, &failed),
        "Razer Battery Display probe\nno Viper V4 Pro HID devices found\nbattery read failed: no mouse"
    );
    let broken: Result<Vec<HidCandidate>, BatteryError> = Err(err("enum broke"));
    let reading = Ok(BatteryReading { percent: 7, raw: 18 });
    assert_eq!(
        probe_report_inner(true, &broken, &reading),
        "Razer Battery Display probe\nHID enumeration failed: enum broke\nbattery: 7% raw=18"
    );
}

#[test]
fn default_reader_is_a_fresh_reader() {
    let mut reader = BatteryReader::default();
    assert!(matches!(reader.read(ReadEvent::Start), ReadAction::Enumerate));
    assert!(format!("{reader:?}").contains("BatteryReader"));
}
