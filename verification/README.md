# rmk

The core of a keyboard firmware, verified with Verus: the HID output of a
trackpad, per-key lighting, the link of a split keyboard, the keyboard builder
and the plans of its code generator.

- `src/trackpad` decodes touch frames into mouse and touchpad reports, serializes
  them, builds the HID descriptor and answers the host's feature requests.
- `src/light` renders lighting frames and packs them for a split link.
- `src/split` decides what a peripheral half does about messages and events.
- `src/builder.rs` collects the parts of a keyboard.
- `src/codegen` decides what the macros generate, and which configurations they
  refuse.
- `src/event`, `src/time.rs`, `src/bytes.rs` and `src/math.rs` are shared.

Contracts speak of spec functions that say what a value is; the laws that span
several functions are public proof functions beside them, for the decoders in
`src/trackpad/laws.rs`. Calls into `heapless`, `embassy-time` and the standard
library's case mappings stand behind wrappers whose doc comments say what is
claimed of them.

`app/` is the firmware around the library: statics and channels, hardware
drivers, the USB and BLE stacks, wire copies of the messages, and the token
output of the code generator.
