# Muse Bar

Muse Bar puts the current media session of Windows 11 into the Explorer
taskbar: artwork, title, progress, spectrum and playback controls.

This crate holds the rules of Muse Bar as a Verus library whose contracts are
proved: the placement of the bar among the taskbar's controls, the reading of
the taskbar's occupancy, the choice of the media session to show, the activity
record of every session, the control and seek requests, the loading and
normalisation of settings, the update state, the application volume, the
Explorer recovery steps and the diagnostics.

- `src/` — the verified library (`muse_bar`).
- `tests/` — tests that run the library on concrete values.
- `app/` — the Tauri program around the library: windows, WinRT and Win32
  calls, audio capture, file access and the commands of the front end.
