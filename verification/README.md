# tui_wav

Plays an audio file in the terminal and draws a live FFT spectrum of what is
playing (space or `p` pauses and resumes, `q` or Esc quits).

- `src/` is the verified library: the clock text of the progress gauge
  (`clock`), the keyboard controls and the main loop's decisions
  (`controls`), the index arithmetic of the spectrum analyzer (`spectrum`),
  the screen's geometry and status line (`screen`), and the checks on a
  decoded track (`playback`).
- `app/` is the program around it: decoding and playback with rodio, the
  transform with rustfft, and drawing with ratatui and crossterm. The
  floating-point signal processing (down-mixing, windowing, magnitudes,
  smoothing, dB scaling, bar heights) lives there too.
