# slyh

A small audio player. The verified library (`src/`) holds what the player
decides and shows:

- `player`: the player's state, the queue of actions run between frames
  (opening the audio output, asking for a file, playing it), and what the
  play, loop and drop gestures do;
- `text`: the `mm:ss / mm:ss` progress text and the stream facts line;
- `config`: the interface language choice and the checks made on the
  configuration directory;
- `normalize`: the Unicode NFC form of shown file names.

`app/` is the program around it: the egui window, the rodio audio output,
the file dialog, and reading and writing `config.toml`.
