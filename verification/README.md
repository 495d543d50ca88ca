# presentations

A presentation server: it serves a folder of images, videos, PDF and
PowerPoint files as a Reveal.js slide show, reloads connected pages when the
folder changes, and offers a small dashboard for the audio settings.

The library (`src/`) is verified with Verus:

- `html_generator` — which files become slides, in name order, and the exact
  Reveal.js page for them (HTML-escaped names).
- `pptx_parser` — what a PPTX archive says: slide count, per-slide
  animations, transition and embedded media, the errors met on the way, and
  a text summary.
- `folder` — which folder entries are handled, in name order, and the
  files shown, each name once.
- `slide_files` — the files generated from one document, in slide order.
- `server`, `cmd` — folder entry classification, names of generated files,
  parsing of `pdfinfo`, `nmcli`, `.env` and `PATH` text.
- `watcher` — the folder watcher as a state machine, and the version of the
  served files.
- `dashboard` — the dashboard pages and the volume/limiter form handling.
- `text`, `sorting` — string helpers and the name order, with their laws.

The program (`app/`) does the I/O: the HTTP server, the file watcher, the
external converters (LibreOffice, `pdf2svg`, `pdfinfo`) and the audio tools.

Environment: `PRESENTATIONS_DIR` (default: the current directory) and `PORT`
(default 8080), also read from a `.env` file beside the executable.
