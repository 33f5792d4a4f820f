# order_picker

Decides which orders a proving broker takes on.

- `src/` is the library: all decisions and computations, verified with Verus.
  `pricing` asks one question at a time about an order and decides what follows
  each answer; `evaluate` estimates cycles and holds an order against the
  configured price; `gas` sums up and prices gas; `update` and `schedule` decide
  what becomes of priced orders and which orders are priced when. `laws` states
  what holds of pricing as a whole. 256-bit arithmetic and the reading of decimal
  amounts come from alloy, in `u256` and `units`.
- `app/` runs the library: it asks the database, the chain, the prover and the
  configuration, and drives the monitor with tokio.
- `tests/` runs the library on concrete orders.
