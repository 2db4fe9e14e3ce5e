# ss7-billing

Billing and subscriber management for SS7 networks: prepaid accounts keyed by
MSISDN and IMSI, call detail records and their rating, CALEA intercept targets
and PBX call-forwarding rules, with an operator console served over SSH.

## Layout

- `src/` — the library, verified with Verus.
  - `account`, `cdr`, `calea`, `pbx` — the record types and their stored text forms.
  - `rating` — the tariff engine.
  - `db` — the billing store: four tables with their key and uniqueness
    constraints, the queries (filters, `LIKE` name search, orderings) and the
    updates, each specified over `BillingState`.
  - `console`, `console_services`, `dispatch` — the operator console: its
    screens for accounts, lawful-intercept targets and call-forwarding rules,
    the key bindings, and the step that carries out a key's action.
  - `access` — the console login check.
  - `rows`, `text`, `format` — table helpers, text matching and ordering,
    decimal rendering of amounts.
  - `clock` — identifiers and the current time.
  - `laws` — properties that span several operations.
- `app/` — the SSH server, the terminal drawing, and persistence of the store
  in an SQLite file.
- `tests/` — tests of the library.

## Units

Amounts are integers in ten-thousandths of the currency unit (the precision to
which charges are rounded); timestamps are microseconds since the Unix epoch.
