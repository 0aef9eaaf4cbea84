# synthphone

The control logic of a telephone-shaped vocal effects box, written in Verus
and proved against its contracts.

- `src/` is the verified library: the user-interface state machines
  (`state_machine`, `state_machines`) and keypad mapping (`buttons`), display
  change tracking (`dirty`), the MIDI parsers and event queue (`midi`,
  `phone_midi`), voice allocation (`voice_generator`), drum synthesis and
  sample playback (`drum_synth`, `sample_player`), the decisions of the audio
  and interface tasks (`handler`, `phone_handler`), checksummed settings
  records (`settings_storage`) and the memory-protection register values
  (`mpu`). Each module states its laws as public proof functions.
- `app/` is the host program around it: reading MIDI bytes, writing the MPU
  registers, the settings flash, and the floating-point audio conversions.
- `tests/` runs the library on concrete inputs.
