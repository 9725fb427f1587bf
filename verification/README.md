# newfm

The rules of a music scrobbling service, as a verified Verus library, with the
HTTP API and the background worker built on it.

## Layout

- `src/` is the library. It does no I/O. A procedure that has to ask a database,
  Redis or another service is a machine: a step says which question is open, the
  caller puts it and hands the answer to the matching `advance_*` function. The
  `law_*` proof functions state what comes of a whole run.
  - `scrobble`, `ingest`, `entries`: which listens count, and how they are
    recorded.
  - `live`: the now-playing state and its event stream.
  - `auth`, `access`: registration, login, tokens, sessions, the request limit.
  - `users`, `catalog`, `community`, `uploads`: profiles, browsing, images and
    comments.
  - `jobs`, `enrichment`, `metadata`, `providers`, `ratelimit`: filling the
    catalog in the background.
  - `spotify`, `accounts`, `connect`, `poller`: linked Spotify accounts.
  - `errors`, `models`, `ids`, `text`, `time`: what the others share.
- `tests/` runs the library on concrete values.
- `app/` is the program: `api` (the default) serves HTTP, `worker` runs the
  background loops.

## Running

`DATABASE_URL` is required. `REDIS_URL`, `BIND_ADDR`, `PUBLIC_BASE_URL`,
`UPLOAD_DIR`, `DB_MAX_CONNECTIONS`, `LASTFM_API_KEY`, `SPOTIFY_CLIENT_ID`,
`SPOTIFY_CLIENT_SECRET` and `SPOTIFY_REDIRECT_URI` are optional.
