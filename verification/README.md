# speedway_pos

The business rules of a point-of-sale for small convenience and liquor
stores, written in Verus and proved against their contracts. Money is integer
cents throughout.

## Layout

- `src/` — the verified library, one module per concern:
  - `pricing` — promotions (buy-one-get-one, second unit percent off), loyalty
    earning and redemption, the historical-cost rule;
  - `sale` — the checkout computation: pricing each cart line against the
    catalog, the age gate, the tally, settlement (redemption, tender, change,
    points) and the receipt;
  - `security` — PIN hashing and verification (argon2), the role/permission
    matrix, manager overrides and the void/refund gate;
  - `shifts` — expected cash, over/short, shift summaries and drawer events;
  - `txns` — which sales may be reversed, refund tenders, stock and loyalty
    reversals;
  - `purchasing` — cases and units, purchase-order and receiving rules, cost
    updates, reorder suggestions;
  - `backup`, `health` — schema compatibility, backup assessment, checksums,
    the newest-first listing, retention, restore markers, health status,
    diagnostics and the automatic-backup schedule;
  - `devices`, `hardware` — device traits and simulated adapters, the
    cash-drawer rule, the receipt document;
  - `registers`, `reports`, `customers`, `catalog`, `settings`, `applog`,
    `audit`, `demo`, `models`, `text` — the remaining rules and the string and
    integer helpers they rest on.
- `tests/` — tests of the library, run with the real argon2, sha2 and
  rand_core crates linked.
- `app/` — the program around the library: the SQLite database (sqlx), files,
  the clock, the line-oriented JSON command loop, the first-run data, and the
  one floating-point rule (tax rounding).
