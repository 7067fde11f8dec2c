# Azusa Lens, verified core

The logic of the Azusa Lens screenshot, annotation and OCR tool, written in
Verus and proved against its contracts.

- `src/` is the library. Each module states what its functions do over
  mathematical models (`Seq`, `Map`, integers) and proves it:
  - capture geometry and frames (`capture`, `capture_session`, `pixels`),
    redaction effects (`effects`), the annotation history (`document`) and
    annotation colours and tools (`annotation`);
  - settings and their migration (`config`), shortcut bindings and their
    registration decisions (`hotkey`, `shortcut_settings`,
    `shortcut_registration`);
  - OCR tasks, images, the model catalog and its routing (`ocr`,
    `ocr_models`, `ollama`, `progress`, `encoding`);
  - file names and dates of saved captures (`dialogs`, `calendar`), the
    file-manager action (`shell_integration`, `file_ocr`), fonts (`fonts`),
    status text, its translation and feedback levels (`i18n`, `feedback`,
    `ui_state`, `app_state`).
- `tests/` runs the library on concrete values.
- `app/` is a small command-line program around the library: the
  file-manager OCR action, the settings file and the HTTP calls to Ollama.

Calls into outside crates (`image`, `base64`, `dirs`, the shortcut crate's
key codes) go through a few trusted wrappers whose contracts are stated in
their doc comments.
