use razer_battery::hid_path::{
    candidates_from_paths, interface_preference, is_supported_battery_path, path_interface_hint,
    pid_from_path, candidate_from_path, VIPER_V4_PRO_WIRED_PID, VIPER_V4_PRO_WIRELESS_PID,
};
use razer_battery::report::{
    build_report, calculate_crc, raw_to_percent, validate_response, BATTERY_DATA_SIZE,
    CMD_CLASS_MISC, CMD_GET_BATTERY, HID_REPORT_LEN, STATUS_BUSY, STATUS_SUCCESS, TRANSACTION_ID,
};

fn battery_response() -> [u8; HID_REPORT_LEN] {
    let mut response = [0_u8; HID_REPORT_LEN];
    response[1] = STATUS_SUCCESS;
    response[2] = TRANSACTION_ID;
    response[6] = BATTERY_DATA_SIZE;
    response[7] = CMD_CLASS_MISC;
    response[8] = CMD_GET_BATTERY;
    response
}

#[test]
fn report_has_expected_razer_battery_request_layout() {
    let report = build_report();

    assert_eq!(report.len(), HID_REPORT_LEN);
    assert_eq!(report[0], 0);
    assert_eq!(report[1], 0);
    assert_eq!(report[2], TRANSACTION_ID);
    assert_eq!(report[6], BATTERY_DATA_SIZE);
    assert_eq!(report[7], CMD_CLASS_MISC);
    assert_eq!(report[8], CMD_GET_BATTERY);
    assert_eq!(report[89], calculate_crc(&report));
    assert_eq!(report[90], 0);
}

#[test]
fn validates_battery_response() {
    let mut response = [0_u8; HID_REPORT_LEN];
    response[1] = STATUS_SUCCESS;
    response[2] = TRANSACTION_ID;
    response[6] = BATTERY_DATA_SIZE;
    response[7] = CMD_CLASS_MISC;
    response[8] = CMD_GET_BATTERY;
    response[10] = 128;

    assert_eq!(validate_response(&response).unwrap(), 128);
}

#[test]
fn rejects_unexpected_response_headers() {
    let mut response = [0_u8; HID_REPORT_LEN];
    response[1] = 0x03;
    response[2] = TRANSACTION_ID;
    response[6] = BATTERY_DATA_SIZE;
    response[7] = CMD_CLASS_MISC;
    response[8] = CMD_GET_BATTERY;

    assert!(validate_response(&response).is_err());
}

#[test]
fn raw_battery_values_map_to_percentages() {
    assert_eq!(raw_to_percent(0), 0);
    assert_eq!(raw_to_percent(128), 50);
    assert_eq!(raw_to_percent(255), 100);
}

#[test]
fn probe_interface_hint_avoids_instance_id() {
    let hint = path_interface_hint(r"\\?\hid#vid_1532&pid_00e6&mi_03#b&1d7ae382&0&0000#...");
    assert_eq!(hint, "mi_03");
}

#[test]
fn only_safe_feature_interfaces_are_supported() {
    assert!(is_supported_battery_path(
        r"\\?\hid#vid_1532&pid_00e6&mi_03#b&1d7ae382&0&0000#{...}"
    ));
    assert!(is_supported_battery_path(
        r"\\?\hid#vid_1532&pid_00e5&mi_04#b&1d7ae382&0&0000#{...}"
    ));
    assert!(!is_supported_battery_path(
        r"\\?\hid#vid_1532&pid_00e6&mi_01&col02#b&1d7ae382&0&0001#{...}"
    ));
    assert!(!is_supported_battery_path(
        r"\\?\hid#vid_1532&pid_00e5&mi_00#b&1d7ae382&0&0000#{...}"
    ));
    assert!(!is_supported_battery_path(
        r"\\?\hid#vid_1532&pid_0099&mi_03#b&1d7ae382&0&0000#{...}"
    ));
}

#[test]
fn pid_is_read_from_supported_path() {
    assert_eq!(
        pid_from_path(r"\\?\hid#vid_1532&pid_00e6&mi_03#..."),
        Some(VIPER_V4_PRO_WIRELESS_PID)
    );
    assert_eq!(
        pid_from_path(r"\\?\hid#vid_1532&pid_00e5&mi_04#..."),
        Some(VIPER_V4_PRO_WIRED_PID)
    );
    assert_eq!(pid_from_path(r"\\?\hid#vid_1532&pid_0099&mi_03#..."), None);
}

#[test]
fn request_checksum_is_xor_of_header_bytes() {
    let report = build_report();
    assert_eq!(report[89], 0x02 ^ 0x07 ^ 0x80);
    assert_eq!(calculate_crc(&report), 0x85);
    let mut other = [0_u8; HID_REPORT_LEN];
    other[3] = 0xff;
    other[88] = 0x0f;
    other[89] = 0xaa;
    other[2] = 0x55;
    assert_eq!(calculate_crc(&other), 0xf0);
}

#[test]
fn request_bytes_outside_header_are_zero() {
    let report = build_report();
    for (i, byte) in report.iter().enumerate() {
        if ![2, 6, 7, 8, 89].contains(&i) {
            assert_eq!(*byte, 0, "byte {i}");
        }
    }
}

#[test]
fn busy_status_is_accepted() {
    let mut response = battery_response();
    response[1] = STATUS_BUSY;
    response[10] = 7;
    assert_eq!(validate_response(&response).unwrap(), 7);
}

#[test]
fn refusal_messages_name_the_bad_bytes() {
    let mut response = battery_response();
    response[1] = 0x03;
    assert_eq!(validate_response(&response).unwrap_err(), "unexpected status 0x03");

    let mut response = battery_response();
    response[2] = 0xab;
    assert_eq!(validate_response(&response).unwrap_err(), "unexpected transaction id 0xAB");

    let mut response = battery_response();
    response[7] = 0x0f;
    assert_eq!(
        validate_response(&response).unwrap_err(),
        "unexpected response header size=0x02 class=0x0F command=0x80"
    );

    let mut response = battery_response();
    response[6] = 0x01;
    response[8] = 0x81;
    assert_eq!(
        validate_response(&response).unwrap_err(),
        "unexpected response header size=0x01 class=0x07 command=0x81"
    );
}

#[test]
fn echoed_request_is_accepted() {
    let mut response = build_report();
    response[1] = STATUS_SUCCESS;
    response[10] = 200;
    assert_eq!(validate_response(&response).unwrap(), 200);
}

#[test]
fn percentages_round_to_nearest_and_never_decrease() {
    assert_eq!(raw_to_percent(1), 0);
    assert_eq!(raw_to_percent(2), 1);
    assert_eq!(raw_to_percent(127), 50);
    assert_eq!(raw_to_percent(254), 100);
    let mut previous = 0;
    for raw in 0..=255u8 {
        let percent = raw_to_percent(raw);
        assert!(percent <= 100);
        assert!(percent >= previous);
        let exact = raw as f64 * 100.0 / 255.0;
        assert!((percent as f64 - exact).abs() <= 0.5);
        previous = percent;
    }
}

#[test]
fn interface_preference_ranks_mi_03_first() {
    assert_eq!(interface_preference(r"\\?\hid#vid_1532&pid_00e6&mi_03#x"), 0);
    assert_eq!(interface_preference(r"\\?\hid#vid_1532&pid_00e6&mi_04#x"), 1);
    assert_eq!(interface_preference(r"\\?\hid#vid_1532&pid_00e6&mi_01#x"), 2);
}

#[test]
fn interface_hint_lowercases_and_falls_back() {
    assert_eq!(path_interface_hint(r"\\?\HID#VID_1532&PID_00E6&MI_04#X"), "mi_04");
    assert_eq!(path_interface_hint(r"\\?\hid#vid_1532&pid_00e6&mi_00&mi_03"), "mi_00");
    assert_eq!(path_interface_hint(r"\\?\hid#vid_1532&pid_00e6"), "unknown");
}

#[test]
fn wireless_pid_wins_when_both_occur() {
    assert_eq!(pid_from_path("pid_00e5&pid_00e6"), Some(VIPER_V4_PRO_WIRELESS_PID));
}

#[test]
fn candidate_needs_supported_lower_path() {
    let path = r"\\?\HID#VID_1532&PID_00E6&MI_03#X".to_string();
    let lower = path.to_ascii_lowercase();
    let c = candidate_from_path(path.clone(), &lower).unwrap();
    assert_eq!(c.path, path);
    assert_eq!(c.pid, VIPER_V4_PRO_WIRELESS_PID);
    assert!(candidate_from_path(path.clone(), &path).is_none());
}

#[test]
fn candidates_are_filtered_and_ordered() {
    let paths = vec![
        r"\\?\hid#vid_1532&pid_00e5&mi_04#b".to_string(),
        r"\\?\hid#vid_1532&pid_00e6&mi_01&col02#b".to_string(),
        r"\\?\HID#VID_1532&PID_00E5&MI_03#B".to_string(),
        r"\\?\hid#vid_1532&pid_00e6&mi_04#a".to_string(),
        r"\\?\hid#vid_046d&pid_00e6&mi_03#a".to_string(),
        r"\\?\hid#vid_1532&pid_00e6&mi_03#c".to_string(),
        r"\\?\hid#vid_1532&pid_00e6&mi_03#a".to_string(),
    ];
    let candidates = candidates_from_paths(&paths);
    let order: Vec<&str> = candidates.iter().map(|c| c.path.as_str()).collect();
    assert_eq!(
        order,
        vec![
            r"\\?\hid#vid_1532&pid_00e6&mi_03#a",
            r"\\?\hid#vid_1532&pid_00e6&mi_03#c",
            r"\\?\HID#VID_1532&PID_00E5&MI_03#B",
            r"\\?\hid#vid_1532&pid_00e6&mi_04#a",
            r"\\?\hid#vid_1532&pid_00e5&mi_04#b",
        ]
    );
    assert_eq!(candidates[2].pid, VIPER_V4_PRO_WIRED_PID);
    assert!(candidates_from_paths(&Vec::new()).is_empty());
}
