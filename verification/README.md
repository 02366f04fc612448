# rusty_shorty

The verified core of Rusty Shorty, a URL shortener with a back office. The
library (`src/`) is written in Verus: every public function carries a contract
that Verus proves, and the properties that span several functions are stated
as proof functions (`lemma_*`).

- `validation`, `text`, `timestamp`: the field rules, trimming, number and
  date rendering. The calls into cjtoolkit-structured-validator, regex, chrono,
  uuid and std's number formatting sit in small `external_body` functions whose
  contracts are assumed, not proved.
- `shorty`, `stack`, `user`, `public`, `home`: forms, services, access checks,
  role guards, list rows, links and flash messages of each area; the form
  submissions (`shorty::route`, `user::post`) as step functions from a state and
  what the outside world answered to the next state and action.
- `html`, `locale`, `failure`, `role`, `cache`: page layout and navigation,
  translations, failures with their HTTP status, roles.

`app/` holds what the library leaves to ordinary Rust: the poem handlers, the
SQLite queries, sessions and cookies, maud rendering, embedded assets and
password hashing. `tests/` exercises the library on concrete values.
