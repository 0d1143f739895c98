# kingshot

The rules of a touch-first hero-defense prototype, verified with Verus.

- `src/` is the verified library: application states and session
  bookkeeping (`state`), once-mode timers (`timer`), the boot and menu flow
  (`flow`), pointer classification (`input`), aiming and projectile lifetime
  (`aim`), hit resolution and core breaches (`combat`), the per-frame engine
  step (`lifecycle`) and the peer-to-peer room setup (`p2p`).
- `app/` is the browser entry point on Bevy: plugins, systems, rendering,
  floating-point geometry, JavaScript bindings and logging. It hands the
  library plain values (entity ids, booleans, nanosecond frame times) and
  carries out what the library decides.
