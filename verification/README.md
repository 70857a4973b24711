# privatewhisper

A local, private voice-to-text tool: press a hotkey, speak, press it again,
and the words are transcribed on the machine and pasted at the cursor.

- `src/` is the verified core (Verus): the dictation state machine and how a
  hotkey press settles, the settings and their defaults, which model files a
  directory still lacks, which wheel entries become runtime DLLs, text
  clean-up before pasting, and how the tray icon and overlay present each
  state. Calls into `directories` and `zip` stand behind small trusted
  wrappers whose contracts are documented where they are declared.
- `app/` is the program around it: the event loop, hotkey, microphone
  capture, speech recognition, clipboard, downloads and file access.
- `tests/` runs the library on concrete values.
