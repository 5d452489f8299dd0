# tizen_sys

Bindings to Tizen native libraries (dlog, tizen-core, vconf, pkgmgr,
pkgmgr-info, GLib/GObject, libsoup, app-event, app_control, system_info,
alarm, bundle, aul, the Action framework) that are opened at run time.

- `src/` (verified with Verus) holds the rules of the bindings as plain values:
  - `library`: the shared objects, the file names tried for each (in order),
    and `load_step`, the decision procedure that opens a library by keeping
    the first file name that opens;
  - `api`: one `Api` value per binding, with the shared object it is looked
    up in, its C symbol, and its fallback (`Missing`) when it cannot be
    reached;
  - `dispatch`: `outcome`, which decides between calling the native function
    and taking the fallback;
  - `mock_log`: the line the logging binding prints when dlog is missing;
  - `codes`: the C constants and the Action event type.
- `app/` holds the `unsafe` foreign functions themselves: they open the
  libraries with `libloading`, look up the symbols and call them, following
  the decisions of `src/`.
- `tests/` exercises the library.
