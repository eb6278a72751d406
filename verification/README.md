# cubic

The logic of Cubic, a command-line manager for QEMU virtual machines, as a
library verified with Verus, with the window and host access around it in
`app/`.

- `src/models`: names (instances, snapshots, images, users), sizes, port
  forwardings, the image and instance descriptions, the order of images, and
  templates read from TOML.
- `src/image`: the image list: providers, tagging of stable and latest
  releases, and matching a requested image.
- `src/qemu`: the `qemu-img` commands and the reading of their reports.
- `src/platform`: the host interface (`System`) and a scripted host for tests.
- `src/view`, `src/gui`, `src/commands`: confirmation prompts, spinner frames,
  the window state and its updates, and the command tables.
- `src/text`, `src/util`: text helpers and their lemmas, alternatives between
  name types, and pattern extraction.
- `app`: the iced window, the host system on `std::process`, the spinner
  thread and the async runtime.
- `tests`: tests of the library on concrete values.
