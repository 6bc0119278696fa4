# olympus_sdk

Client SDK for the Olympus Cloud platform, with its core verified by Verus.

## Layout

- `src/` — the verified library.
  - `json`, `decode`, `stamps`: the JSON document model, the field readers
    every typed reply is read with, and RFC 3339 instants and UUIDs.
  - `http`: request plans (`ApiRequest`), URLs and headers, and the
    interpretation of replies (error envelopes, empty bodies, redirects).
  - `url`, `text`, `time`: percent-encoding and query parameters, string
    helpers, durations.
  - `i18n`, `services::i18n`, `error`: the localized error manifest, its
    cache and lifetime, locale fallback, and localized error messages.
  - `session`, `silent_refresh`: session events and the refresh schedule.
  - `apps`, `identity`, `tenant`, `services::*`: each service's calls as
    request plans, and its replies read into typed records.
- `app/` — the runtime around the library: the reqwest transport, the async
  client, the process-wide manifest cache and the silent-refresh task.
- `tests/` — tests of the library on concrete values.

Every public function of `src/` states in its contract the request it plans
or the value it computes; the laws (round trips of the voice configuration
documents, cache lifetimes, fallback chains) are proof functions beside the
code they speak of.
