# signal_box

The logic of Signal Box, a local-first inbox that turns developer captures into
project memory and shipping artefacts, as a library verified with Verus.

- `src/` is the verified library. Each public function states in `ensures`
  what it returns, over spec functions on `Seq<char>` and the views of its
  types; the `lemma_*` proof functions state the laws that hold across calls.
  - `text`: trimming, whitespace, lower-casing, searching and formatting text.
  - `settings`: provider settings, their normalisation and validation.
  - `capture`: new captures, fallback titles, project matching, the extraction prompt.
  - `provider`: the chat and embedding requests sent to a provider, and reading replies.
  - `distill`: what processing a capture writes, planned from the provider's JSON.
  - `artefact`: artefact types, the generation prompt, titles and summaries of drafts.
  - `records`: project, task, decision, question and source edits, links, recall prompts.
  - `search`: indexed text, content hashes, keyword scores, snippets, question answering.
  - `ids`: record identifiers and displayed paths.
  - `schema`: which migrations are still to apply.
- `tests/` runs the library on concrete values.
- `app/` is the desktop application around it: SQLite storage, the HTTP
  exchanges with providers, float scoring of search results, and the Tauri
  shell with its commands, quick-capture window and global hotkey.
