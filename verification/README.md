# uefi_ui

Immediate-mode user interface building blocks for UEFI firmware applications:
widget state machines (text area, lists, menus, tree view, date and number fields,
scrollbars), keyboard focus and Tab order, pixel layout, dialogs, a BGRX
framebuffer, settings encoding for NVRAM, keyboard layout descriptors and PNG
loading.

## Layout

- `src/` — the library, verified with Verus. Every public function states in its
  contract what it returns or changes; where the PNG decoder, the allocator or the
  caller's file system decides the outcome, the contract says what holds whatever
  comes back: which directory the file system was asked to list (the `FileIo` trait
  records it as `listed_path`), and, for PNG data, the decoder's named outcome and
  error kind. The properties that span several calls
  (focus cycles, encode/decode round trips, typing then erasing, tree rows) are
  public proof functions next to the code they speak of.
- `tests/` — tests that run the library on concrete values.
- `app/` — the front end around the library: drawing with `embedded-graphics`,
  fonts with `fontdue`, theme palettes and other fractional values, and the
  firmware services (files, variables, keyboard layouts, pointer devices).

The library calls `minipng` for PNG decoding and carries `uefi-raw` GUIDs; the
calls it trusts are small wrappers whose contracts are stated next to them.
