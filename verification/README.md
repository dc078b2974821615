# offcut_ui

The interface core of Offcut, a small video trimmer, written in Verus: the
decisions the window makes, stated as contracts and proved.

## Layout

- `src/` — the verified library.
  - `trimbar` — the trim bar's rules in source time: how far each edge may
    go, the rolling stop that parks an edge on the playhead, where a scrub
    may land, the bar's pointer handling, and its readout.
  - `timeline` — the lane's pointer handling and cursor, and the playhead's
    bounds on the timeline.
  - `video` — when a crop-box drag begins, carries on and ends.
  - `shell` — which plates are open, the inspector tabs, stepping the
    transport, the Adjust nudge, filename eliding, timecodes, and the
    keyboard reference.
  - `theme` — appearance modes and the palette's colour roles, by name.
  - `rice` — reading a colour config: sections, comments, hex colours,
    "did you mean" suggestions for role names, wallpaper seeds, warnings,
    and how explicit roles combine with a base palette.
  - `catalog` — which saved themes exist, and which one was chosen.
  - `icons` — the symbolic icon set as SVG documents.
  - `text`, `time`, `pointer` — characters, nanosecond time, and pointer
    events shared by the rest.
- `app/` — the parts that are not verified: the iced widgets and their
  pixel geometry, colour derivation in floating point, file and
  environment access, and the edit model's history. They measure, draw and
  do I/O, and hand every decision to the library.
- `tests/` — the library's tests.
