# vips-gui

A desktop app for batch-converting images to JPEG, PNG, WebP or AVIF with
the `vips` command-line tool, whose decisions are specified and proved with
Verus.

## Layout

- `src/` is the verified library. Every function in it carries a contract,
  and Verus proves each one except those of four small wrappers around
  outside code, whose contracts are trusted: `push_char` (`String::push`),
  `lossy_text` (`String::from_utf8_lossy`), `is_uppercase`
  (`char::is_uppercase`) and `decode_png_rgba` (the `image` crate's PNG
  decoder). The modules:
  - `settings`: the conversion choices, their defaults, and where each output
    goes;
  - `vips/command`: the `vips copy` / `vips thumbnail` argument lists, with the
    proof that every option suffix is well formed;
  - `vips/convert`: collision handling (`name (1).ext`), what the loop watching
    a running vips does on a cancel, what a finished run means, and how
    libvips' stderr is cleaned for display;
  - `vips/discovery`: reading `vips --version` and `vips -l`, the order in which
    an executable is looked for, and why a candidate is refused;
  - `vips/preview`: the preview commands, the newest-request-wins slot and the
    debounce timer;
  - `job`: the queue, with duplicate suppression and a selection that stays
    on a row;
  - `worker`, `summary`, `ui`, `cli`, `diagnostics`: what the batch pool
    reports, the wording the window shows, and the `--check` report;
  - `text` and `path`: the character-level helpers the rest reasons with.
    Paths follow Windows rules on every platform: both `/` and `\` separate
    components.
- `app/` is the program around the library: the egui window, file dialogs,
  running `vips` as a subprocess, threads, and saving settings.
- `tests/` exercises the library on concrete values.

libvips itself must be installed separately and on `PATH`; `vips-gui --check`
reports what was found.
