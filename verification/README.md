# image_trainer

The rules behind the desktop application of an image trainer, written and proved in Verus.

- `src/` is the library. `python` finds and runs Python; `commands` and `runs` say what its scripts
  are given and how their answers are read; `daemon`, `status` and `launch` keep the language-model
  daemon; `messages`, `metrics` and `updates` say what it is sent and when; `pairing` and `clients`
  deal with the companion app; `json` holds the calls into `serde_json`; `model` and `text` hold the
  operations on file names and on text.
- `app/` is the application around it: windows, processes, files and sockets.
- `tests/` runs the library.
