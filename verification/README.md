# cntrl_browser

The backend logic of the CNTRL browser, an AI-assisted web browser, written in
Verus: the library's functions are verified by Verus against their
contracts.

## Layout

- `src/` — the verified library.
  - `intent` — classifies a natural-language command (navigate, search,
    scrape, compose, system, macro, query) and extracts its slots.
  - `planner` — turns a classified command into the browser steps that
    carry it out.
  - `ai/` — AI tiers, request and response shapes, the per-provider request
    details (`Provider` trait), the reading of their JSON replies (`json`),
    and `router`: complexity scoring, tier
    selection with fallback down the tier chain, and the masked
    configuration shown to the user; with privacy mode on, only a local
    provider is handed out (`guarded_provider_for_tier`).
  - `privacy` — the privacy-mode guard, whose check refuses every remote AI
    tier while the mode is on.
  - `keychain` — API keys in the OS keychain through the `keyring` crate;
    the contracts state the calls made to the store and what each answer
    becomes.
  - `pipeline` — a command made ready to run: classified from its own
    text, with the context block from recalled past tasks prepended to the
    prompt only.
  - `background` — the decisions of a headless background task.
  - `db`, `habits` — the records kept in the browser's databases.
  - `text`, `slots`, `ids`, `error` — text helpers with their
    specifications, the slot map, task identifiers and the error type.
  - The public `lemma_*` proof functions state the laws the library keeps
    across calls (routing never raises a tier, no keys means the local
    model, privacy mode blocks remote tiers, stored preferences read back
    as written, every plan has steps, and so on).
- `tests/` — tests of the library on concrete values.
- `app/` — the unverified service layer around the library: HTTP calls to
  the AI providers, SQLite persistence, loading and storing the privacy
  mode, the audit trail of keychain accesses, the shared router and privacy
  guard, and the command functions.
