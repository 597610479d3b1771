# LocaRay tunnel logic

The verified core of LocaRay, a desktop tool that gives a local development server a
temporary public HTTPS URL through a Cloudflare Quick Tunnel.

- `src/` is the library, written and proved with Verus:
  - `state.rs` and `machine_laws.rs`: the tunnel lifecycle machine, its specification
    `step`, and what holds across all events (stale events are ignored, a public URL
    appears only on verification, a second session cannot begin while one is active…);
  - `session.rs`: the course of one session as a driver from reported results to
    effects, and `tunnel.rs`: the runtime state the application keeps under its lock;
  - `url_parser.rs` and `patterns.rs`: validation of Quick Tunnel URLs and their
    extraction from process output (with the `url` and `regex` crates);
  - `diagnostics.rs`: the byte-bounded diagnostic buffer;
  - `services.rs`, `settings.rs`, `commands.rs`, `compatibility.rs`: service
    discovery, preferences, command decisions and the compatibility route's rules;
  - `text.rs`: character-level helpers.
- `tests/` exercises the library on concrete values.
- `app/` is the Tauri application around the library: window, tray, commands,
  processes, the HTTP proxy and system scans.
