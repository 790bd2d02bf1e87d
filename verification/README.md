# itilsuite

The decision logic of an ITSM / ITAM platform (service desk, mail collectors,
notifications, SLAs, surveys, rules and dictionaries, agent inventory, chat,
marketing), written in Verus and proved against its contracts.

- `src/` – the verified library. `rules/` holds the rule engine (criteria,
  pipelines, dictionaries); `web/` the decisions behind the web pages
  (forms, sessions, ticket actions, asset sheets); the other modules one
  service each. `text.rs`, `numbers.rs` and `ids.rs` hold the text, number and
  identifier routines they share. Calls into `regex`, `ipnet`, `uuid` and
  `urlencoding` stand behind small trusted wrappers whose contracts are stated
  in their doc comments.
- `tests/` – scenarios run against the compiled library.
- `app/` – the unverified shell: database access (`sqlx`), JSON payloads
  (`serde`), clocks (`chrono`) and the loops that feed events to the library.
