# turnon

Turn On sends Wake On LAN magic packets to devices in the local network and
shows which devices are online.  This crate is its library, verified with
Verus, plus a small command line program around it.

## Layout

- `src/` — the verified library.
  - `text.rs` — character-level helpers (decimal rendering, splitting,
    replacing, joining) the other modules are specified with.
  - `net/` — addresses and packets: IPv4 and socket address parsing and
    display, MAC addresses (through `macaddr`), the ARP cache format, magic
    packets (through `wol`), ICMP echo packets and replies (statically built,
    and with checksum through `etherparse`), the reachability monitor, HTTP
    probing.
  - `model.rs` — devices, the list of registered and discovered devices,
    discovery from the ARP cache.
  - `storage.rs` — the stored form of devices and its conversions.
  - `dbus.rs`, `searchprovider.rs` — the GNOME Shell search provider: method
    calls, matching devices against search terms, result metas.
  - `widgets.rs` — what the dialogs and device rows decide: validation,
    actions, feedback.
  - `commandline.rs`, `debuginfo.rs`, `config.rs`, `i18n.rs` — command line
    output, the debug report, versions and configuration.
- `tests/` — tests of the library on concrete values.
- `app/` — the command line program: argument handling, the devices file,
  sockets.

## Checking

Each public function states its result in `ensures`; laws that relate several
functions are public proof functions (`lemma_*`).  Calls into `macaddr`, `wol`,
`semver`, `formatx` and `etherparse` go through small trusted wrappers whose
contracts state what those crates do.
