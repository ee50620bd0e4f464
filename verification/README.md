# Chiù

Chiù lives in the tray and keeps the computer awake while a download is
running, or for as long as its user wishes.

- `src/` is the library `chiu`: what the program decides and computes, with
  contracts that Verus proves. It makes no system calls. Where something is to
  be asked of the platform, the library answers with the next call, and is told
  what came of it.
- `app/` is the program around it: the event loop, the tray, the files, the
  threads and the platforms' interfaces.
- `tests/` runs the library on scripted platforms.

The library trusts `serde_json` (`src/settings/json.rs`) and `time`
(`src/clock.rs`) for what the contracts of a few small functions say of them.
