# phelper-core

Control core of a power, fan and graphics manager for one laptop board, as a
Verus library.

- `src/` decides: what a command does, in which order, when it is refused, how
  it is verified, what the safety net and the heartbeat do, and what is owed
  back to firmware. What a function computes or changes stands in its
  contract, which Verus proves; types that are only carried derive their
  clones and comparisons.
- `tests/` runs the library: the control plane against a mock firmware and a
  simulated clock, and every part by itself.
- `app/` is the program around the library: threads, files, processes and the
  command line. It performs the requests that the library makes and hands the
  replies back.

Laws that relate several functions are public proof functions next to what
they speak of, among them: a plan with a refused step is not started; after a
failed step nothing more is written; two failed heartbeats, frozen sensors or
a failed hand-over end with the machine handed back; what was changed stays in
the recovery ledger until its restore has been seen; samples from before a
write never verify it; bytes of the journal that arrive in parts give the same
lines as the whole.
