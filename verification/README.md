# qtss_worker

The decision logic of the QTSS trading worker as a Verus-verified library,
with the worker binary around it.

- `src/` — the library. Every function states its result in `requires` /
  `ensures` over spec functions and views, and Verus proves it. It holds
  the engine source filters, settings interpretation, the engine-symbol
  lifecycle, intake promotion, outcome labelling and grading, the kill
  switch, the confluence feature sources, market-bar and scan planning,
  pivot and Elliott structure tracking, IQ setup gates, execution routing,
  playbook voting, notification texts, the whale watchlist, the LLM
  reply verdict, the choice of Nansen request bodies, and the Decimal
  position sizing, liquidation price and kill-switch trigger.
  Laws that span several calls are public `proof fn`s (`lemma_*`).
  The calls into outside code stand behind small trusted wrappers:
  std's Unicode case mapping and `String::push` in `src/text.rs`, the
  rust_decimal operations in `src/decimal.rs`, the serde_json reads in
  `src/json.rs`, and one uuid and one chrono call.
- `app/` — the worker binary: database, HTTP, WebSocket and timer work,
  float arithmetic, and the impls of outside traits. It hands
  plain values to the library and acts on what comes back.
- `tests/` — tests of the library on concrete values.
