# codex_logic

Verified decision logic of the Codex agent, written in Verus.

- `truncation`: cutting rollouts before the n-th or last user message, or before the
  newest user-turn segment, with `ThreadRolledBack` markers applied; laws state that
  every cut is a prefix, how the cuts relate, and that rollouts without turn events
  fall back to the last user message.
- `protocol`: the rollout items the truncation reads; a message carries what the turn
  parser made of it, and only a parsed user message is a user-turn boundary.
- `launch_guard`: when the Windows restricted-token sandbox must hand over to the
  elevated runner, and the token context built from group SIDs.
- `local_search`: the local search broker's base URL, its `/search` endpoint, and the
  outcome of a search exchange.
- `search_commands`: the JSON format of web-search commands, the lenient shapes also
  accepted, and the action a set of commands is reported as.
- `web_search_tool`: the names under which the web-search tool is offered.
- `json`, `urls`, `text`: JSON values (parsed by `serde_json`), URL parsing (by `url`),
  and character-level string helpers.

`app/` reads the environment for the broker URL and holds the serde form of the
search commands, whose parse error is reported for arguments that the library rejects.
