# vyv

Vyv keeps a computer awake: timed or open-ended sessions in two modes (display and
system, or system only), an optional mouse jiggle, lid-closed sleep prevention, drive
keep-alive, and lifetime usage statistics, all driven from a tray menu.

`src/` is the verified library (Verus). It holds the session state machine and every
decision the application makes:

- `state`, `awake`, `timer`: the session, keep-awake requests (through `keepawake`), the
  session timer;
- `stats`: usage totals, milestones and usage levels;
- `profiles`, `simulation`: simulation profiles and the planned input steps (random
  values through `rand`);
- `battery_monitor`, `process_monitor`: what each monitor round does;
- `clamshell`, `drive_alive`: the text handled around `pmset`, `osascript`, `diskutil`
  and the volume list;
- `tray`: the menu model, tooltip, menu ids and the command handler, which returns the
  outside work left to do;
- `text`, `clock`, `cancel`: string helpers, the clock and cancellation tokens.

`app/` is the Tauri application around it: the tray itself, the global hotkey, the
background tasks, and the calls to the operating system, `battery`, `sysinfo` and
`enigo`.
