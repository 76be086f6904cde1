# field_grid

An interactive visualiser of curvilinear coordinate grids, of scalar and vector fields drawn
over them, and of electromagnetic fields and potentials, with a tangent-space "dive" into a
grid sample.

- `src/` is the verified library (Verus). It holds the control-window state and its
  validation, the snapshot diff that decides which parts of the world are rebuilt, the
  tangent-dive state machine and the per-frame apply decision, the layout of the
  differential-form operations (exterior derivative, Hodge star), plane-wave recognition,
  the per-time cache of Maxwell source samples, the profiling counters and the substitution
  of coordinate equations into the grid shader. Each public function states its behaviour in
  `requires`/`ensures`, and the properties that span several calls are proof functions named
  `lemma_*`.
- `tests/` exercises the library on concrete values.
- `app/` is the unverified layer around it: symbolic expressions (`mathhook_core`),
  floating-point sampling and blending, the colour legend, renderables and the thread-shared
  caches. It hands plain values to the library and acts on what the library decides.
