# ai-usagebar tray logic

The decisions behind the tray's updates and its popover profile, written and
proved in Verus. `src/` is the library: no file is read and no process is
started in it. `app/` is the host around it, which does both. `tests/` runs
the library.

- `scoop`: detects a tray that Scoop installed, finds its files, and writes
  the update script for it.
- `manifest`: what is accepted from `install.json` and bucket manifests.
- `script`: the PowerShell program that updates and relaunches the tray.
- `process`: how a program is run quietly, and what each look at it means.
- `profile`: where the popover's profile lives.
- `text`, `json`, `paths`: what the others stand on. `json` and `paths` hold
  the contracts of `serde_json` and of the standard library's paths, which
  are trusted.
- `quotes`: how many single quotes the update program holds.
- `laws`: what holds across the functions. Where a law speaks of where a path
  lies, it leaves out the few roots that `paths::steady` does.
