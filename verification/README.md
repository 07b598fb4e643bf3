# pump_sniper

Decision logic of a pump.fun trading bot, written and proved in Verus, and three
programs around it.

- `src/` is the library. It decides which tokens are bought, when positions are
  sold, what is recorded, kept, sent and shown. Every item is verified; what is
  believed without proof is marked `external_body` or `assume_specification`, with
  a comment that says what is claimed of the outside function.
- `app/` holds the programs: the console sniper (`sniper`, the default), the
  desktop bot (`desktop`) and the token feed (`feed`). They own the sockets, the
  files, the window and the floating-point arithmetic, and hand the library plain
  values.
- `tests/` runs the library on concrete values.

Amounts, prices and percentages are IEEE doubles. The library carries them as bit
patterns (`double::Double`) and compares them exactly; sums, products, quotients
and their decimal texts come from the programs.

| Module | What it holds |
| --- | --- |
| `double`, `text`, `json`, `clock`, `wallet` | values: doubles, texts, JSON trees, times, keys and signatures |
| `curve` | prices on the bonding curve and the platform fee |
| `config`, `state`, `storage`, `panel` | the desktop bot's settings, state, files and window texts |
| `risk`, `monitor`, `trade`, `pricing` | the desktop bot's filters, trades, exits and balance |
| `env`, `events`, `sniper`, `orders`, `session`, `display` | the console sniper's settings, messages, positions, orders, socket and terminal |
| `feed` | the token feed |
