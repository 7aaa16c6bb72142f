//! Setup rules: the program's names, how it is launched, the command lines
//! and registry values it writes, its shortcuts, and which directory an
//! uninstall may remove.
use vstd::prelude::*;
use crate::text::{
    chars_of, contains, equal_chars, has_infix, lower_char, lowercase, owned, push_str,
    replace_char, replace_char_exec, same_text, to_ascii_lowercase, trim_end,
};

verus! {

/// Id of the app in the registry and in its install directory's name.
pub const APP_ID: &'static str = "RazerBatteryDisplay";
/// The app's display name.
pub const APP_NAME: &'static str = "Razer Battery Display";
/// File name of the installed program.
pub const EXE_NAME: &'static str = "RazerBatteryDisplay.exe";
/// Class name of the tray window, by which a running instance is found.
pub const WINDOW_CLASS: &'static str = "RazerBatteryDisplayTrayWindow";
/// Registry key of the programs that start with Windows.
pub const RUN_KEY: &'static str = "Software\\Microsoft\\Windows\\CurrentVersion\\Run";
/// Registry key of the app's uninstall entry.
pub const UNINSTALL_KEY: &'static str =
    "Software\\Microsoft\\Windows\\CurrentVersion\\Uninstall\\RazerBatteryDisplay";
/// File name of the start menu shortcut.
pub const SHORTCUT_LINK_NAME: &'static str = "Razer Battery Display.lnk";
/// File name of the start menu internet shortcut, used when no link can be made.
pub const SHORTCUT_URL_NAME: &'static str = "Razer Battery Display.url";
/// File name of the uninstall helper copied to the temporary directory.
pub const UNINSTALL_HELPER_NAME: &'static str = "RazerBatteryDisplayUninstall.exe";

/// A path in double quotes, as a command line holds it.
pub open spec fn spec_quote_arg(path: Seq<char>) -> Seq<char> {
    "\""@ + path + "\""@
}

/// A text made safe inside a PowerShell single-quoted string: each `'` doubled.
pub open spec fn spec_ps_quote(value: Seq<char>) -> Seq<char> {
    replace_char(value, '\'', "''"@)
}

/// The command line that starts the installed tray app.
pub open spec fn spec_startup_command(exe: Seq<char>) -> Seq<char> {
    spec_quote_arg(exe) + " --run"@
}

/// The command line that uninstalls the app.
pub open spec fn spec_uninstall_command(exe: Seq<char>) -> Seq<char> {
    spec_quote_arg(exe) + " --uninstall"@
}

/// A path as compared: `/` made `\`, trailing `\` dropped, ASCII lower-cased.
pub open spec fn normalized_path(p: Seq<char>) -> Seq<char> {
    lowercase(trim_end(replace_char(p, '/', "\\"@), '\\'))
}

/// Two paths name the same place, up to case, separators and trailing separators.
pub open spec fn spec_same_path(left: Seq<char>, right: Seq<char>) -> bool {
    normalized_path(left) == normalized_path(right)
}

/// The PowerShell script that makes the start menu shortcut.
pub open spec fn spec_shortcut_script(lnk: Seq<char>, exe: Seq<char>, work_dir: Seq<char>) -> Seq<
    char,
> {
    "$s=(New-Object -ComObject WScript.Shell).CreateShortcut('"@ + spec_ps_quote(lnk)
        + "');$s.TargetPath='"@ + spec_ps_quote(exe)
        + "';$s.Arguments='--run';$s.WorkingDirectory='"@ + spec_ps_quote(work_dir)
        + "';$s.IconLocation='"@ + spec_ps_quote(exe) + ",0';$s.Save()"@
}

/// The internet shortcut file that stands in for a link.
pub open spec fn spec_internet_shortcut(exe: Seq<char>) -> Seq<char> {
    "[InternetShortcut]\nURL=file:///"@ + replace_char(exe, '\\', "/"@) + "\nIconFile="@ + exe
        + "\nIconIndex=0\n"@
}

/// A path in double quotes.
pub fn quote_arg(path: &str) -> (quoted: String)
    ensures
        quoted@ == spec_quote_arg(path@),
{
    let mut quoted = String::new();
    push_str(&mut quoted, "\"");
    push_str(&mut quoted, path);
    push_str(&mut quoted, "\"");
    quoted
}

/// A text with each `'` doubled, for a PowerShell single-quoted string.
pub fn ps_quote(value: &str) -> (quoted: String)
    ensures
        quoted@ == spec_ps_quote(value@),
{
    replace_char_exec(value, '\'', "''")
}

/// The command line that starts the installed tray app.
pub fn startup_command(exe: &str) -> (command: String)
    ensures
        command@ == spec_startup_command(exe@),
{
    let mut command = quote_arg(exe);
    push_str(&mut command, " --run");
    command
}

/// The command line that uninstalls the app.
pub fn uninstall_command(exe: &str) -> (command: String)
    ensures
        command@ == spec_uninstall_command(exe@),
{
    let mut command = quote_arg(exe);
    push_str(&mut command, " --uninstall");
    command
}

/// Whether the app starts with Windows: the value in the run key, if there is
/// one, is the startup command of the installed program.
pub fn startup_enabled(run_value: &Option<String>, exe: &str) -> (enabled: bool)
    ensures
        enabled == (run_value matches Some(v) && v@ == spec_startup_command(exe@)),
{
    match run_value {
        Some(value) => {
            let expected = startup_command(exe);
            same_text(value.as_str(), expected.as_str())
        },
        None => false,
    }
}

/// A path as compared.
fn normalize_path(p: &str) -> (out: Vec<char>)
    ensures
        out@ == normalized_path(p@),
{
    let replaced = replace_char_exec(p, '/', "\\");
    let chars = chars_of(replaced.as_str());
    let ghost full = chars@;
    let mut end = chars.len();
    assert(full.take(end as int) =~= full);
    while end > 0 && chars[end - 1] == '\\'
        invariant
            end <= chars.len(),
            full == chars@,
            trim_end(full.take(end as int), '\\') == trim_end(full, '\\'),
        decreases end,
    {
        assert(full.take(end as int).drop_last() =~= full.take(end - 1));
        end = end - 1;
    }
    let ghost kept = full.take(end as int);
    assert(trim_end(kept, '\\') == kept);
    let mut out: Vec<char> = Vec::new();
    let mut i: usize = 0;
    while i < end
        invariant
            i <= end <= chars.len(),
            full == chars@,
            kept == full.take(end as int),
            out@ == lowercase(kept.take(i as int)),
        decreases end - i,
    {
        let l = lower_char(chars[i]);
        out.push(l);
        assert(lowercase(kept.take(i + 1)) =~= lowercase(kept.take(i as int)).push(l));
        i = i + 1;
    }
    assert(kept.take(end as int) =~= kept);
    out
}

/// Whether two paths name the same place, up to case and separators.
pub fn same_path(left: &str, right: &str) -> (same: bool)
    ensures
        same == spec_same_path(left@, right@),
{
    let l = normalize_path(left);
    let r = normalize_path(right);
    equal_chars(&l, &r)
}

/// The directory that an uninstall may remove: the expected install
/// directory when the requested one is the same place, else the refusal.
/// Both paths are given absolute and normalized.
pub fn validate_uninstall_dir(actual: &str, expected: &str) -> (r: Result<String, String>)
    ensures
        match r {
            Ok(dir) => spec_same_path(actual@, expected@) && dir@ == expected@,
            Err(message) => !spec_same_path(actual@, expected@) && message@ == "refusing to remove "@
                + actual@ + ", expected "@ + expected@,
        },
{
    if same_path(actual, expected) {
        Ok(owned(expected))
    } else {
        let mut message = String::new();
        push_str(&mut message, "refusing to remove ");
        push_str(&mut message, actual);
        push_str(&mut message, ", expected ");
        push_str(&mut message, expected);
        Err(message)
    }
}

/// The PowerShell script that makes the start menu shortcut `lnk` to `exe`,
/// started in `work_dir` with `--run`.
pub fn shortcut_script(lnk: &str, exe: &str, work_dir: &str) -> (script: String)
    ensures
        script@ == spec_shortcut_script(lnk@, exe@, work_dir@),
{
    let mut script = String::new();
    push_str(&mut script, "$s=(New-Object -ComObject WScript.Shell).CreateShortcut('");
    let q = ps_quote(lnk);
    push_str(&mut script, q.as_str());
    push_str(&mut script, "');$s.TargetPath='");
    let q = ps_quote(exe);
    push_str(&mut script, q.as_str());
    push_str(&mut script, "';$s.Arguments='--run';$s.WorkingDirectory='");
    let q = ps_quote(work_dir);
    push_str(&mut script, q.as_str());
    push_str(&mut script, "';$s.IconLocation='");
    let q = ps_quote(exe);
    push_str(&mut script, q.as_str());
    push_str(&mut script, ",0';$s.Save()");
    script
}

/// The internet shortcut file for `exe`.
pub fn internet_shortcut(exe: &str) -> (body: String)
    ensures
        body@ == spec_internet_shortcut(exe@),
{
    let mut body = String::new();
    push_str(&mut body, "[InternetShortcut]\nURL=file:///");
    let url_path = replace_char_exec(exe, '\\', "/");
    push_str(&mut body, url_path.as_str());
    push_str(&mut body, "\nIconFile=");
    push_str(&mut body, exe);
    push_str(&mut body, "\nIconIndex=0\n");
    body
}

/// The data of a registry value.
pub enum RegistryData {
    Text(String),
    Dword(u32),
}

/// A named registry value.
pub struct RegistryValue {
    pub name: String,
    pub data: RegistryData,
}

/// The model of registry data.
pub enum RegistryDataModel {
    Text(Seq<char>),
    Dword(u32),
}

impl View for RegistryValue {
    type V = (Seq<char>, RegistryDataModel);

    open spec fn view(&self) -> (Seq<char>, RegistryDataModel) {
        (
            self.name@,
            match &self.data {
                RegistryData::Text(t) => RegistryDataModel::Text(t@),
                RegistryData::Dword(d) => RegistryDataModel::Dword(*d),
            },
        )
    }
}

/// The values of the uninstall entry, in the order they are written.
pub open spec fn spec_uninstall_entry(exe: Seq<char>, dir: Seq<char>, version: Seq<char>) -> Seq<
    (Seq<char>, RegistryDataModel),
> {
    seq![
        ("DisplayName"@, RegistryDataModel::Text(APP_NAME@)),
        ("DisplayVersion"@, RegistryDataModel::Text(version)),
        ("Publisher"@, RegistryDataModel::Text("Rique"@)),
        ("InstallLocation"@, RegistryDataModel::Text(dir)),
        ("DisplayIcon"@, RegistryDataModel::Text(exe + ",0"@)),
        ("UninstallString"@, RegistryDataModel::Text(spec_uninstall_command(exe))),
        ("QuietUninstallString"@, RegistryDataModel::Text(spec_uninstall_command(exe))),
        ("NoModify"@, RegistryDataModel::Dword(1)),
        ("NoRepair"@, RegistryDataModel::Dword(1)),
    ]
}

fn text_value(name: &str, value: String) -> (v: RegistryValue)
    ensures
        v@ == (name@, RegistryDataModel::Text(value@)),
{
    RegistryValue { name: owned(name), data: RegistryData::Text(value) }
}

/// The values of the uninstall entry for the program `exe` installed in
/// `dir` at `version`.
pub fn uninstall_entry_values(exe: &str, dir: &str, version: &str) -> (values: Vec<RegistryValue>)
    ensures
        values@.map_values(|v: RegistryValue| v@) == spec_uninstall_entry(exe@, dir@, version@),
{
    let mut values: Vec<RegistryValue> = Vec::new();
    values.push(text_value("DisplayName", owned(APP_NAME)));
    values.push(text_value("DisplayVersion", owned(version)));
    values.push(text_value("Publisher", owned("Rique")));
    values.push(text_value("InstallLocation", owned(dir)));
    let mut icon = owned(exe);
    push_str(&mut icon, ",0");
    values.push(text_value("DisplayIcon", icon));
    values.push(text_value("UninstallString", uninstall_command(exe)));
    values.push(text_value("QuietUninstallString", uninstall_command(exe)));
    values.push(RegistryValue { name: owned("NoModify"), data: RegistryData::Dword(1) });
    values.push(RegistryValue { name: owned("NoRepair"), data: RegistryData::Dword(1) });
    assert(values@.map_values(|v: RegistryValue| v@) =~= spec_uninstall_entry(
        exe@,
        dir@,
        version@,
    ));
    values
}

/// What the program was asked to do by its first argument.
#[derive(Debug, Clone, Copy, PartialEq, Eq, Structural)]
pub enum LaunchCommand {
    /// `--probe`: print the probe report.
    Probe,
    /// `--probe-verbose`: print the probe report with full device paths.
    ProbeVerbose,
    /// `--install`: install and say so.
    Install,
    /// `--install-quiet`: install without a message.
    InstallQuiet,
    /// `--uninstall`.
    Uninstall,
    /// `--finish-uninstall`: the helper that removes the install directory.
    FinishUninstall,
    /// `--run`: run the tray app.
    Run,
    /// No known argument: install when run as setup, else run the tray app.
    Default,
}

/// The command a first argument names.
pub open spec fn spec_parse_command(first: Option<Seq<char>>) -> LaunchCommand {
    match first {
        Some(a) => if a == "--probe"@ {
            LaunchCommand::Probe
        } else if a == "--probe-verbose"@ {
            LaunchCommand::ProbeVerbose
        } else if a == "--install"@ {
            LaunchCommand::Install
        } else if a == "--install-quiet"@ {
            LaunchCommand::InstallQuiet
        } else if a == "--uninstall"@ {
            LaunchCommand::Uninstall
        } else if a == "--finish-uninstall"@ {
            LaunchCommand::FinishUninstall
        } else if a == "--run"@ {
            LaunchCommand::Run
        } else {
            LaunchCommand::Default
        },
        None => LaunchCommand::Default,
    }
}

/// The command that the first argument names.
pub fn parse_command(first: Option<&str>) -> (command: LaunchCommand)
    ensures
        command == spec_parse_command(
            match first {
                Some(a) => Some(a@),
                None => None,
            },
        ),
{
    match first {
        None => LaunchCommand::Default,
        Some(a) => if same_text(a, "--probe") {
            LaunchCommand::Probe
        } else if same_text(a, "--probe-verbose") {
            LaunchCommand::ProbeVerbose
        } else if same_text(a, "--install") {
            LaunchCommand::Install
        } else if same_text(a, "--install-quiet") {
            LaunchCommand::InstallQuiet
        } else if same_text(a, "--uninstall") {
            LaunchCommand::Uninstall
        } else if same_text(a, "--finish-uninstall") {
            LaunchCommand::FinishUninstall
        } else if same_text(a, "--run") {
            LaunchCommand::Run
        } else {
            LaunchCommand::Default
        },
    }
}

/// Whether the program runs as a setup program: its file name (without
/// extension) mentions `setup` or `install` in any case, or it runs from
/// outside the install directory.
pub fn running_as_setup(file_stem: &str, outside_install_dir: bool) -> (setup: bool)
    ensures
        setup == (has_infix(lowercase(file_stem@), "setup"@) || has_infix(
            lowercase(file_stem@),
            "install"@,
        ) || outside_install_dir),
{
    let lower = to_ascii_lowercase(file_stem);
    contains(&lower, "setup") || contains(&lower, "install") || outside_install_dir
}

/// Naming the same place is an equivalence between paths.
pub proof fn lemma_same_path_is_equivalence(a: Seq<char>, b: Seq<char>, c: Seq<char>)
    ensures
        spec_same_path(a, a),
        spec_same_path(a, b) == spec_same_path(b, a),
        spec_same_path(a, b) && spec_same_path(b, c) ==> spec_same_path(a, c),
{
}

/// A trailing separator, of either kind, does not change the place a path names.
pub proof fn lemma_same_path_ignores_trailing_separator(p: Seq<char>)
    ensures
        spec_same_path(p, p.push('\\')),
        spec_same_path(p, p.push('/')),
{
    reveal_strlit("\\");
    assert(p.push('\\').drop_last() =~= p);
    assert(p.push('/').drop_last() =~= p);
    let r = replace_char(p, '/', "\\"@);
    assert(replace_char(p.push('\\'), '/', "\\"@) =~= r.push('\\'));
    assert(replace_char(p.push('/'), '/', "\\"@) =~= r.push('\\'));
    assert(r.push('\\').drop_last() =~= r);
}

/// The UTF-16 units of a registry string value: each two bytes, low byte
/// first; an odd last byte is ignored.
pub open spec fn registry_units(bytes: Seq<u8>) -> Seq<u16> {
    Seq::new(bytes.len() / 2, |i: int| (bytes[2 * i] + 256 * bytes[2 * i + 1]) as u16)
}

/// The text units of a registry string value: its units up to the first
/// zero unit (the terminator), or all of them when there is none.
pub fn registry_string_units(bytes: &Vec<u8>) -> (text: Vec<u16>)
    ensures
        text@.len() <= registry_units(bytes@).len(),
        text@ == registry_units(bytes@).take(text@.len() as int),
        forall|i: int| 0 <= i < text@.len() ==> text@[i] != 0,
        text@.len() == registry_units(bytes@).len() || registry_units(bytes@)[text@.len() as int]
            == 0,
{
    let ghost units = registry_units(bytes@);
    let n = bytes.len();
    let count = n / 2;
    let mut text: Vec<u16> = Vec::new();
    let mut i: usize = 0;
    while i < count
        invariant
            i <= count,
            n == bytes@.len(),
            count == n / 2,
            count == units.len(),
            units == registry_units(bytes@),
            text@ == units.take(i as int),
            forall|k: int| 0 <= k < i ==> units[k] != 0,
        decreases count - i,
    {
        assert(2 * i + 1 < n) by (nonlinear_arith)
            requires
                i < n / 2,
        ;
        let unit: u16 = (bytes[2 * i] as u16) + (bytes[2 * i + 1] as u16) * 256;
        assert(unit == units[i as int]);
        if unit == 0 {
            return text;
        }
        text.push(unit);
        assert(text@ =~= units.take(i + 1));
        i = i + 1;
    }
    assert(units.take(count as int) =~= units);
    text
}


/// A quoted path is the path between two double quotes, whatever it holds;
/// the startup and uninstall command lines are that quoted path followed by
/// ` --run` and ` --uninstall`.
pub proof fn lemma_commands_quote_the_path(p: Seq<char>)
    ensures
        spec_quote_arg(p).len() == p.len() + 2,
        spec_quote_arg(p)[0] == '"',
        spec_quote_arg(p)[(p.len() + 1) as int] == '"',
        spec_quote_arg(p).subrange(1, (p.len() + 1) as int) == p,
        spec_startup_command(p).subrange(0, (p.len() + 2) as int) == spec_quote_arg(p),
        spec_startup_command(p).subrange((p.len() + 2) as int, spec_startup_command(p).len() as int)
            == seq![' ', '-', '-', 'r', 'u', 'n'],
        spec_uninstall_command(p).subrange(0, (p.len() + 2) as int) == spec_quote_arg(p),
        spec_uninstall_command(p).subrange((p.len() + 2) as int, spec_uninstall_command(p).len() as int)
            == seq![' ', '-', '-', 'u', 'n', 'i', 'n', 's', 't', 'a', 'l', 'l'],
{
    reveal_strlit("\"");
    reveal_strlit(" --run");
    reveal_strlit(" --uninstall");
    let q = spec_quote_arg(p);
    assert(q.subrange(1, (p.len() + 1) as int) =~= p);
    let s = spec_startup_command(p);
    assert(s.subrange(0, (p.len() + 2) as int) =~= q);
    assert(s.subrange((p.len() + 2) as int, s.len() as int) =~= seq![' ', '-', '-', 'r', 'u', 'n']);
    let u = spec_uninstall_command(p);
    assert(u.subrange(0, (p.len() + 2) as int) =~= q);
    assert(u.subrange((p.len() + 2) as int, u.len() as int) =~= seq![
        ' ',
        '-',
        '-',
        'u',
        'n',
        'i',
        'n',
        's',
        't',
        'a',
        'l',
        'l',
    ]);
}

} // verus!
