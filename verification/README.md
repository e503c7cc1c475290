# chancela_api

The decision core of the Chancela API service, verified with Verus.

- `src/` — the library. Each module states in `requires`/`ensures` what its functions return:
  - `confirmation` (+ `confirmation/registry`): the guarded-action registry, floors, the route
    verdicts, the phrase check, device-pairing confirmation and the policy view.
  - `cluster`, `cluster_sim`, `cluster_watchdog`, `cluster_route`, `cluster_feed`,
    `cluster_shared_state`: leader election and self-fencing, the write-routing decision, the
    fail-closed change-feed delta plan and lag, and the shared session / rate-limit /
    invalidation contracts.
  - `collection_page`, `sorting`, `books`: bounded pages, keyset cursors bound to their query, the
    books page with its filters and search.
  - `chronology`, `bundles`, `cae`, `cmd_phone`, `cmd_test_signature`: the views and refusals of
    the respective endpoints.
  - `cache`: cache keys, the backend choice, and the in-process cache with its expiry decision.
  - `text`, `error`: string and number helpers with specifications, and the refusal type.
- `tests/` — executable tests of the library.
- `app/` — the process edge: environment and file reads, the shared-store backends of the
  library's traits, JSON forms of its values and HTTP response shapes.
