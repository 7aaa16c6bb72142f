# razer_battery

Battery readout for the Razer Viper V4 Pro, as a verified library (`src/`) and
a Windows tray program around it (`app/`).

`src/` holds the logic, each function with a contract proved by Verus:

- `report`: the HID feature report that asks for the battery level, its
  checksum, the checks on the answer, and the raw-to-percent scale.
- `hid_path`: which device interfaces may be queried (only the `mi_03`/`mi_04`
  feature interfaces of a Viper V4 Pro) and the order they are tried in.
- `reader`: the decisions of one battery read (remembered path first, then
  enumeration, one candidate after another), as a step function.
- `exchange`: the send / wait / fetch / check exchange with a device, at most
  two attempts, as a step function.
- `probe`: the text of the hardware probe report.
- `tray`: what the tray icon shows, when it is redrawn, its menu, and what each
  window message asks for.
- `setup`: names, command lines, registry values, shortcuts, and the check on
  the directory an uninstall may remove.
- `uninstall`: the uninstall helper's arguments, the lexical normalization of
  the directory it is given, and the wait / remove / retry-until-deadline
  decisions, as a step function.
- `text`: the character-level helpers the rest is written with, including the
  decimal reading of a `u32`.

`app/` performs the Win32 calls (HID, registry, files, windows) and hands the
library plain values; it runs the step functions' loops.
