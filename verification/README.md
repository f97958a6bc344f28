# utu

Control centre for ASUS laptops on Ubuntu: thermal profile, graphics mode,
charge limit, battery and suspend switches, APU memory, keyboard backlight
timeout, Fn key mode, EasyEffects sound modes, accent colour, and live
hardware readings.

## Layout

- `src/` — the verified library. Each settings page is a state
  machine: it takes the user's input or the reply of background work and
  returns its next state and the actions to carry out (store a setting, ask
  a daemon, redraw). Parsers for sysfs/procfs files and command output, the
  accent CSS, the calendar used for the battery-health history and the
  Armoury Crate key rules are here too, each with a proved contract.
  `src/text.rs` holds the string model shared by the parsers.
- `tests/` — tests of the library on concrete values.
- `app/` — the GTK/relm4 program: widgets, D-Bus calls to asusd, supergfxd
  and the GNOME settings daemon, file and device I/O, and the battery-health
  graph (floating point). It carries out the actions the library returns.
