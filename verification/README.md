# rbxlx_to_rojo

Converts Roblox place and model files (`.rbxlx`, `.rbxl`, `.rbxmx`, `.rbxm`)
into Rojo projects.

- `src/` is the verified library (Verus):
  - `paths.rs`: paths as text; `Path::extension`, `Path::file_stem` and
    `Path::join` behind trusted wrappers; case-insensitive ASCII comparison.
  - `converter.rs`: choosing the decoder, what the decoder's result
    becomes, the project folder, the steps of a conversion and the
    progress each reports, conversion errors and their messages.
  - `filesystem.rs`: the project writer: the project tree, which files and
    folders to write, and the first failure.
  - `gui.rs`: the converter window's state and how each event changes it.
- `app/` is the program around it: disk access, the worker thread, the
  `eframe` window, file dialogs and the project file's JSON.
- `tests/` runs the library on concrete values.

The verified functions do not panic. The decoders (`rbx_xml`, `rbx_binary`)
read the place file themselves and `rbx_binary` panics on some malformed
files, so they run in `app/` where the file is read; the library takes what
they give (`decode_place`). In the window, such a panic ends the worker
thread, and the conversion is then reported as failed.
