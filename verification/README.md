# craftpath

The verified core of a Path of Exile 2 craft path calculator backend, written
in Verus.

- `src/` is the library, verified by Verus: the domain model (items,
  affixes, currencies, game data), the craft spec mini language, item
  inspection (legal actions and one-step outcome distributions), the item
  matrix builder (every reachable item that can be assessed, with exactly
  the pruned branches of its propagators), the Vaal Orb rules, the wire
  conversions and their round trips, the job queue's bookkeeping (key layout, stored fields, states,
  status read back, cancellation), the worker's job planning, the REST and
  assistant-tool decisions, the live job watchers, the Path of Building
  build-code import and the queue reply parsing. The public functions carry
  contracts; small private helpers may carry only what their callers need.
- The few calls into outside crates (base64 and zlib decoding, XML reading,
  Unicode case mapping, lossy UTF-8 decoding) sit behind small
  trusted wrappers in the module that uses them; each names what the call
  returns and says what its contract claims.
- `tests/` exercises the library on concrete values.
- `app/` holds what touches the process: the environment, files, the clock,
  JSON forms of the job messages, and the thread-safe progress cell.
