# tripchive

The authentication service of tripchive: password accounts and sign-in
with Google, GitHub and Apple over OAuth 2.0, issuing bearer tokens.

- `src/` is the library, verified with Verus: error answers (`errors`),
  configuration (`config`), the signed CSRF cookie of the OAuth redirect
  (`csrf`, over `crypto` and `encoding`), the provider clients and their
  data (`oauth`), ES256/RS256 tokens for Apple (`jwt`), accounts
  (`models`), the decisions of the routes (`routes`) and text helpers
  (`text`). Calls into `hmac`, `sha2`, `hex`, `oauth2`, `jsonwebtoken`,
  `chrono` and `axum-extra` stand behind small functions whose contracts
  state what those crates do.
- `app/` is the HTTP server: axum routes, PostgreSQL access with sqlx,
  requests to the providers with reqwest, access tokens and password
  hashes.
- `tests/` exercises the library on concrete values.
