# naad

Audio synthesis primitives. The crate is split in two:

- `src/` — the library proved with Verus: the exact, integer parts of the
  synthesis building blocks. The xorshift32 generator and the Voss-McCartney
  pink-noise octave schedule (`dsp_util`, `noise`), the ADSR stage machine
  (`envelope`), the delay-line ring buffer (`delay`), modulation routing slots
  and source/destination slots (`mod_matrix`), note names and tuning-table
  positions (`tuning`), the noise-suppressor hold counter (`dynamics`), STFT
  frame layout (`dsp_util`), the Sylvester-Hadamard sign pattern of the
  matrix FDN (`acoustics::fdn_reverb`), and the kind enums every module shares.
- `app/` — the floating-point DSP (oscillators, filters, envelopes, effects,
  dynamics, EQ, reverb, synthesis engines, acoustics over goonj, spectral
  analysis over hisab), serde and error types. It calls the library for the
  parts above.

`tests/` exercises the library on concrete values.
