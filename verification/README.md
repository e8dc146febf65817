# hidapi

A verified core for programs that drive HID devices through the hidapi C
library, written in Verus.

- `src/` is the verified library: reading wide C strings (`wide.rs`),
  turning the C library's device records into `HidDeviceInfo` values
  (`device_info.rs`), the one-context-at-a-time rule of `HidApi` (`api.rs`),
  and the meaning of the status codes and buffers that device calls return
  (`device.rs`). Error messages are in `error.rs`.
- `app/` holds the calls into the C library: it reads the memory they hand
  back into plain values, passes them to the library, and exposes
  `HidContext` and `HidDevice` to programs.
- `tests/` exercises the library on concrete values.
