# coolsounds

A small generative-music program built around a verified library.

- `src/` is the library, verified with Verus:
  - `tone_pattern`: a looping pattern of notes, and the bass line of each voice;
  - `random_tone`: when a chirping tone picks a new target, and which (drawn with `rand`);
  - `file_sampler`: which chunk of a recording, or which second of silence, plays next;
  - `map_filter`: numbering and mapping the samples of a stream;
  - `mix`: what a mix of streams reports of its length, frame length and duration.
- `app/` is the program: it decodes the recording, synthesises the floating-point
  sine waves, mixes everything with `rodio`, and plays it or writes a WAV file with `hound`.
- `tests/` exercises the library.
