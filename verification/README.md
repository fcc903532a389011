# steam_patch

A patcher for the Steam client on AMD handhelds (Asus Rog Ally, Ayaneo, GPD,
AOKZOE and others), written as a Verus library with a thin program around it.

- `src/` is the verified library: recognising the device from `/proc/cpuinfo` and
  the board, what each settings change does on each device, the patches of the
  Steam UI and how they are applied to and removed from the UI files, the file
  search, the Steam log watcher, message retries, the key mappers' decisions, and
  the text primitives (search, replacement, trimming, decimal numbers) that these
  rest on. The main laws are proved there, such as that removing a patch gives
  back the file that it was applied to, when the file held no replacement text
  and the patch wrote the only replacement texts of the patched file, and that
  patching again changes nothing once no text to find is left.
- `app/` is the program: the HTTP server, file and process I/O, the Steam
  debugger connection, inotify and evdev, which hand plain values to the library
  and carry out what it decides.
- `tests/` runs the library on concrete values.
