# fates_api

The API v3 routes of Fates List, with their logic verified by Verus.

- `src/docs.rs`: the Markdown documentation of the routes (`document_routes`, `doc`,
  `_get_params`, `_get_value_from`), stated exactly over the text it produces.
- `src/text.rs`: character-level string helpers (pattern replacement, decimal text).
- `src/routes.rs`: what the listing routes query and answer.
- `src/votes.rs`: the vote request as a state machine, with its laws.
- `app/`: the actix-web handlers, `bevy_reflect` field inspection and `serde_json`
  serialization that feed and run the library.
