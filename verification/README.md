# reflex_instrument

Instruments that watch network conversations and name what went wrong with them: resets,
silences, throttling, dropped handshakes, erased DNS names, refused certificates and more. Each
instrument is a Mealy machine: it takes one letter (a packet or a tick of the clock), returns its
next state and what it said, and keeps no state anywhere else.

The library is written in Verus. Every instrument's `step` states exactly what it says and how its
state moves. The three instruments that ask the caller's own types their questions (departure,
episode, link) state it over the answers those types give: each question of `ask` names its answer
as a spec function, and the caller's implementation promises to give that answer.

What every instrument that speaks of trouble promises, that once it has spoken it stays silent, is
stated in the `ensures` of its `step`. The laws that span several calls are public proof
functions: the edge-mark codec reads back what it wrote and keeps foreign bits
(`edge::lemma_write_then_read`, `edge::lemma_write_keeps_foreign_bits`), the edge watch speaks once
(`edge_detect::silence_speaks_once`), the silence watch is told at most once over any run of
letters (`detect::silence_is_told_once`), a result row survives a write and a read
(`drift::point_survives_write_and_read`); every passport holds by the contract of
`Instrument::sheet`.

Layout:

- `src/` — the verified library. `lib.rs` holds the passports (`Sheet`, `Instrument`) and the
  ladder of layers; each other module is one instrument or one shared vocabulary (`wire`, `dns`,
  `tls`, `event`, `distress`, `edge`, `linux_common`, `datapath`).
- `src/said.rs` — the one place that touches the `smallvec` crate, behind trusted wrappers.
- `tests/` — scenarios on concrete values.
- `app/` — what cannot be verified: the process clock, the floating-point drift comparison,
  `Display` for distress words, and the eBPF entry points of the datapath.
