# ha_client

A typed client for the Home Assistant REST API, written in Verus.

- `src/` is the verified library: entity and connection handling, the
  domain of an entity id, the service requests of switching and of generic
  service calls (with the merge of extra JSON data into the request body),
  the answer of a state query, the decision loop of waiting for a state, and
  the lines of an entity report.
- `app/` runs the library against a live instance: it sends the requests
  with `homeassistant_rs`, sleeps with `tokio`, prints, and converts between
  `serde_json` / `homeassistant_rs` values and the library's values.
- `tests/` exercises the library on concrete values.
