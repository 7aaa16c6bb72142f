use razer_battery::setup::{
    internet_shortcut, parse_command, registry_string_units, ps_quote, quote_arg, running_as_setup, same_path,
    shortcut_script, startup_command, startup_enabled, uninstall_command, uninstall_entry_values,
    validate_uninstall_dir, LaunchCommand, RegistryData, APP_NAME,
};

#[test]
fn arguments_are_quoted() {
    assert_eq!(quote_arg(r"C:\Apps\RazerBatteryDisplay.exe"), r#""C:\Apps\RazerBatteryDisplay.exe""#);
    assert_eq!(startup_command(r"C:\x.exe"), r#""C:\x.exe" --run"#);
    assert_eq!(uninstall_command(r"C:\x.exe"), r#""C:\x.exe" --uninstall"#);
}

#[test]
fn powershell_quotes_are_doubled() {
    assert_eq!(ps_quote("it's Bob's"), "it''s Bob''s");
    assert_eq!(ps_quote("plain"), "plain");
    assert_eq!(ps_quote("''"), "''''");
}

#[test]
fn startup_is_enabled_only_for_the_installed_command() {
    let exe = r"C:\Users\u\AppData\Local\Programs\RazerBatteryDisplay\RazerBatteryDisplay.exe";
    assert!(startup_enabled(&Some(startup_command(exe)), exe));
    assert!(!startup_enabled(&Some(quote_arg(exe)), exe));
    assert!(!startup_enabled(&None, exe));
}

#[test]
fn same_path_ignores_case_separators_and_trailing_slashes() {
    assert!(same_path(r"C:\Programs\RazerBatteryDisplay", "c:/programs/razerbatterydisplay/"));
    assert!(same_path(r"C:\A\\", r"c:\a"));
    assert!(!same_path(r"C:\A", r"C:\B"));
    assert!(!same_path(r"C:\A\B", r"C:\AB"));
}

#[test]
fn uninstall_dir_must_be_the_install_dir() {
    let expected = r"C:\Users\u\AppData\Local\Programs\RazerBatteryDisplay";
    assert_eq!(validate_uninstall_dir(&expected.to_lowercase(), expected).unwrap(), expected);
    assert_eq!(
        validate_uninstall_dir(r"C:\Temp\RazerBatteryDisplay-should-not-delete", expected).unwrap_err(),
        format!(r"refusing to remove C:\Temp\RazerBatteryDisplay-should-not-delete, expected {expected}")
    );
}

#[test]
fn shortcut_script_quotes_each_path() {
    let script = shortcut_script(r"C:\Start\Razer Battery Display.lnk", r"C:\O'Neil\app.exe", r"C:\O'Neil");
    assert_eq!(
        script,
        r"$s=(New-Object -ComObject WScript.Shell).CreateShortcut('C:\Start\Razer Battery Display.lnk');$s.TargetPath='C:\O''Neil\app.exe';$s.Arguments='--run';$s.WorkingDirectory='C:\O''Neil';$s.IconLocation='C:\O''Neil\app.exe,0';$s.Save()"
    );
}

#[test]
fn internet_shortcut_uses_file_url() {
    assert_eq!(
        internet_shortcut(r"C:\Apps\app.exe"),
        "[InternetShortcut]\nURL=file:///C:/Apps/app.exe\nIconFile=C:\\Apps\\app.exe\nIconIndex=0\n"
    );
}

#[test]
fn uninstall_entry_has_every_value() {
    let values = uninstall_entry_values(r"C:\P\app.exe", r"C:\P", "1.2.3");
    let described: Vec<String> = values
        .iter()
        .map(|v| match &v.data {
            RegistryData::Text(t) => format!("{}={}", v.name, t),
            RegistryData::Dword(d) => format!("{}#{}", v.name, d),
        })
        .collect();
    assert_eq!(
        described,
        vec![
            format!("DisplayName={APP_NAME}"),
            "DisplayVersion=1.2.3".to_string(),
            "Publisher=Rique".to_string(),
            r"InstallLocation=C:\P".to_string(),
            r"DisplayIcon=C:\P\app.exe,0".to_string(),
            r#"UninstallString="C:\P\app.exe" --uninstall"#.to_string(),
            r#"QuietUninstallString="C:\P\app.exe" --uninstall"#.to_string(),
            "NoModify#1".to_string(),
            "NoRepair#1".to_string(),
        ]
    );
}

#[test]
fn first_argument_selects_command() {
    assert_eq!(parse_command(Some("--probe")), LaunchCommand::Probe);
    assert_eq!(parse_command(Some("--probe-verbose")), LaunchCommand::ProbeVerbose);
    assert_eq!(parse_command(Some("--install")), LaunchCommand::Install);
    assert_eq!(parse_command(Some("--install-quiet")), LaunchCommand::InstallQuiet);
    assert_eq!(parse_command(Some("--uninstall")), LaunchCommand::Uninstall);
    assert_eq!(parse_command(Some("--finish-uninstall")), LaunchCommand::FinishUninstall);
    assert_eq!(parse_command(Some("--run")), LaunchCommand::Run);
    assert_eq!(parse_command(Some("--RUN")), LaunchCommand::Default);
    assert_eq!(parse_command(None), LaunchCommand::Default);
}

#[test]
fn setup_is_recognized_by_name_or_location() {
    assert!(running_as_setup("RazerBatteryDisplaySetup", false));
    assert!(running_as_setup("INSTALLER", false));
    assert!(!running_as_setup("RazerBatteryDisplay", false));
    assert!(running_as_setup("RazerBatteryDisplay", true));
}

#[test]
fn registry_text_stops_at_terminator() {
    let bytes: Vec<u8> = "ab".encode_utf16().chain([0, 0x63]).flat_map(|u| u.to_le_bytes()).collect();
    assert_eq!(registry_string_units(&bytes), vec![0x61, 0x62]);
    assert_eq!(registry_string_units(&vec![0x41, 0x01, 0x42]), vec![0x0141]);
    assert_eq!(registry_string_units(&vec![0, 0, 0x41, 0]), Vec::<u16>::new());
    assert!(registry_string_units(&Vec::new()).is_empty());
}
