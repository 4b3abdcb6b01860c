# PerfWindow dashboard

A desktop dashboard for the readings of the PerfWindow sensor service. The
decisions the dashboard makes — how it formats readings, parses its release
notes, lays out cards and core heat-maps, picks the stat rows that fit a
card, keeps sparkline history, drives the connection to the service and the
update flow — live in the library under `src/`, where Verus proves each
against its contract. `app/` holds the window, the files, the network, the
sensor pipe and the Windows shell calls around it.

Modules of the library:

- `text` — character-level helpers: trimming, searching, decimal output.
- `format` — link speeds, uptimes, letter spacing, disk details, the board
  identity line.
- `calendar` — civil dates from day numbers and UTC timestamps.
- `changelog`, `release_notes` — the Keep a Changelog parser and the notes
  it reads.
- `config`, `theme` — settings, palettes, the follow-the-OS poll.
- `layout`, `stats` — the card grid, the heat-map plan, the stat-row
  selection.
- `gpu_card` — which rows the GPU card shows for discrete and integrated
  GPUs.
- `history` — ring buffers and per-component sparkline history.
- `ipc` — the control channel, connection errors and the connect state
  machine.
- `update` — version comparison, the check cache, check and download
  outcomes.
- `update_modal` — the update dialog's screens and what moves between them.
- `tooltips`, `crash` — help texts and exception names.
