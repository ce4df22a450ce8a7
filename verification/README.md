# yomama

A yo-mama joke player: a joke is five recorded clips (base, adjective, clause, action,
reaction), and some clips trigger easter eggs (image overlays, sounds, a fake crash)
before, during or after they play.

- `src/` is the verified library: segments and clips with their FNV-1a hashes, random
  joke drawing, the easter-egg table and the playback plan of a joke, image decoding to
  premultiplied BGRA, MP3 encoding of recordings, and the text tools that read and edit
  the asset table and the easter-egg table (menu labels, constant names, file names).
- `app/` is the program around it: audio output, Win32 overlay windows, the debug menu,
  the recorder and file access.
- `tests/` runs the library on concrete values.
