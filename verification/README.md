# Stream Pad

Stream Pad is a Windows quick-action panel: profiles of buttons that open links,
launch programs, open folders and play sounds. Files, folders, shortcuts and links
dropped onto the panel become buttons, and remote panels can press buttons over a
WebSocket. A separate installer window downloads and runs the setup program.

This crate holds the panel's and the installer's logic as a library whose
behaviour is stated in Verus contracts and proved.

## Layout

- `src/text.rs` - characters, white space, trimming, searching, line splitting.
- `src/urls.rs` - recognising web links, their labels and favicon addresses.
- `src/deck.rs` - the configuration (profiles, buttons, actions), its limits
  (15 profiles, 20 buttons each) and finding the actions of a pressed button.
- `src/trigger.rs` - running a button's actions in order, stopping at a failure.
- `src/files.rs` - file names: stems, extensions, sound and program files, icons.
- `src/dragged.rs` - links and titles in dragged text; Internet shortcut files.
- `src/import.rs` - turning dropped paths and links into button data, one
  file-system question at a time.
- `src/drop_target.rs` - the cursor shown while something is dragged over the window.
- `src/bmp.rs` - shell icons as Base64 bitmap `data:` addresses.
- `src/sound.rs` - where a sound's audio comes from (file or inline Base64).
- `src/remote.rs` - requests from remote panels.
- `src/installer.rs` - the installer window's progress state.
- `src/setup.rs` - launch arguments, registry install location, release
  metadata, setup file names and exit reports.
- `src/screen.rs` - clicks, window geometry, colours, UTF-16 text and background.
- `tests/` - tests of the library on concrete values.
- `app/` - the program around the library: the Tauri window and commands, the
  WebSocket server, sound playback, the Windows drop target and the installer's
  drawing, downloading and process handling.
