# slowscan

A slow-scan television (SSTV) decoder. The library in `src/` holds the parts
of the decoder that work on integers and plain data, each with a contract
proved by Verus:

- `demod`: the phase step between neighbouring samples, unwrapped by
  two's-complement overflow on `i16`, and the gain that the analytic-signal
  filter gives each frequency bin;
- `sstv`: the transmission modes and where the overlapping analysis windows
  start, so that their trimmed centres follow one another without gap;
- `scan`: the front end's state (the user's choices and the image decoded so
  far) and what each message does to it;
- `pixel`, `frame`: the RGBA pixel and the byte buffer the image is shown from.

`app/` is the program around it: the window and its widgets, audio input and
playback, and the floating-point signal processing (window function, Fourier
transforms, phase and frequency conversion).
