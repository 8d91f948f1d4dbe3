# iconic

Iconic lays an image over a folder icon. This crate is its rule book, written in
Verus and proved: `src/` is the verified library, `app/` the GTK front end that
calls it, `tests/` the tests of the library.

- `icon_name`: the `folder_new-…-<hash>.png` file names of generated icons, written
  and read back.
- `xmp`: the properties kept in a generated icon's XMP metadata, written and read back.
- `properties`: the kinds of folder image, masks and the errors of reading properties.
- `choices`: what the settings select (folder image, accent colours, drop actions).
- `workflow`: the decisions of the window (mask switch, caching, regeneration, dialogs).
- `raster`: masks, monochrome and composition on RGBA pixels.
- `folder_svg`: recolouring the built-in folder SVG.
- `color`, `decimal`, `text`: colours in hex, decimal numbers, and character sequences.
