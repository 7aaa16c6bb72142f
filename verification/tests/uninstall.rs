use razer_battery::text::parse_u32;
use razer_battery::uninstall::{
    helper_args, normalized_components, DirectoryRemoval, PathPart, RemovalAction, RemovalEvent,
    REMOVAL_RETRY_MS, REMOVAL_WINDOW_MS,
};

fn strings(items: &[&str]) -> Vec<String> {
    items.iter().map(|s| s.to_string()).collect()
}

#[test]
fn helper_needs_two_arguments() {
    assert_eq!(helper_args(&strings(&["42"])).unwrap_err(), "missing uninstall helper arguments");
    assert_eq!(helper_args(&Vec::new()).unwrap_err(), "missing uninstall helper arguments");
    assert_eq!(
        helper_args(&strings(&["1234", r"C:\Programs\RazerBatteryDisplay", "extra"])).unwrap(),
        (1234, r"C:\Programs\RazerBatteryDisplay".to_string())
    );
    assert_eq!(
        helper_args(&strings(&["12a", "dir"])).unwrap_err(),
        "invalid digit found in string"
    );
}

#[test]
fn pid_is_read_as_str_parse_reads_it() {
    let inputs = [
        "", "+", "-", "0", "007", "+42", "-1", "42 ", " 42", "4294967295", "4294967296",
        "99999999999x", "12x99999999999", "١٢", "+-1", "18446744073709551616",
    ];
    for input in inputs {
        let expected = input.parse::<u32>().map_err(|e| e.to_string());
        assert_eq!(parse_u32(input), expected, "input {input:?}");
    }
}

#[test]
fn dot_and_dot_dot_are_folded() {
    let parts = vec![
        PathPart::Prefix("C:".to_string()),
        PathPart::Root,
        PathPart::Parent,
        PathPart::Normal("Users".to_string()),
        PathPart::Current,
        PathPart::Normal("tmp".to_string()),
        PathPart::Parent,
        PathPart::Normal("Programs".to_string()),
    ];
    let folded: Vec<String> = normalized_components(&parts)
        .iter()
        .map(|p| match p {
            PathPart::Prefix(t) => format!("prefix {t}"),
            PathPart::Root => "root".to_string(),
            PathPart::Current => ".".to_string(),
            PathPart::Parent => "..".to_string(),
            PathPart::Normal(t) => t.clone(),
        })
        .collect();
    assert_eq!(folded, vec!["prefix C:", "root", "Users", "Programs"]);
}

fn finished(action: RemovalAction) -> Result<(), String> {
    match action {
        RemovalAction::Finished(r) => r,
        _ => panic!("expected the end of the removal"),
    }
}

#[test]
fn removal_waits_then_removes() {
    let mut r = DirectoryRemoval::new(77, r"c:/p/", r"C:\P").unwrap();
    match r.finish_uninstall(RemovalEvent::Start) {
        RemovalAction::WaitForProcess(pid, ms) => {
            assert_eq!(pid, 77);
            assert_eq!(ms, REMOVAL_WINDOW_MS);
        }
        _ => panic!(),
    }
    assert!(matches!(r.finish_uninstall(RemovalEvent::Waited(1000)), RemovalAction::RemoveDir));
    assert_eq!(finished(r.finish_uninstall(RemovalEvent::Removed)), Ok(()));
    assert!(!r.awaits(&RemovalEvent::Removed));
}

#[test]
fn vanished_directory_counts_as_removed() {
    let mut r = DirectoryRemoval::new(1, "d", "d").unwrap();
    r.finish_uninstall(RemovalEvent::Start);
    r.finish_uninstall(RemovalEvent::Waited(0));
    let action = r.finish_uninstall(RemovalEvent::RemoveFailed("not found".to_string(), false));
    assert_eq!(finished(action), Ok(()));
}

#[test]
fn failures_are_retried_until_the_deadline() {
    let mut r = DirectoryRemoval::new(1, r"C:\P", r"C:\P").unwrap();
    r.finish_uninstall(RemovalEvent::Start);
    assert!(matches!(r.finish_uninstall(RemovalEvent::Waited(500)), RemovalAction::RemoveDir));
    let action = r.finish_uninstall(RemovalEvent::RemoveFailed("in use".to_string(), true));
    assert!(matches!(action, RemovalAction::Sleep(ms) if ms == REMOVAL_RETRY_MS));
    assert!(matches!(r.finish_uninstall(RemovalEvent::Slept(8499)), RemovalAction::RemoveDir));
    r.finish_uninstall(RemovalEvent::RemoveFailed("locked".to_string(), true));
    assert_eq!(
        finished(r.finish_uninstall(RemovalEvent::Slept(8500))),
        Err(r"uninstall cleaned up startup entries, but could not remove C:\P: locked".to_string())
    );
}

#[test]
fn removal_without_time_left_reports_unknown_error() {
    let mut r = DirectoryRemoval::new(1, "d", "d").unwrap();
    r.finish_uninstall(RemovalEvent::Start);
    assert_eq!(
        finished(r.finish_uninstall(RemovalEvent::Waited(u64::MAX))),
        Err("uninstall cleaned up startup entries, but could not remove d: unknown error".to_string())
    );
}

#[test]
fn foreign_directory_is_refused_before_anything_is_removed() {
    let install = r"C:\Users\u\AppData\Local\Programs\RazerBatteryDisplay";
    match DirectoryRemoval::new(1, r"C:\Windows", install) {
        Err(message) => assert_eq!(
            message,
            format!(r"refusing to remove C:\Windows, expected {install}")
        ),
        Ok(_) => panic!("a foreign directory was accepted"),
    }
    let mut r = DirectoryRemoval::new(1, &install.to_uppercase(), install).unwrap();
    r.finish_uninstall(RemovalEvent::Start);
    assert!(matches!(r.finish_uninstall(RemovalEvent::Waited(0)), RemovalAction::RemoveDir));
}
