# helix_agent

A tiny AI agent with long-term memory kept in HelixDB. Each turn the agent
embeds the message, vector-searches HelixDB for related memories, asks a chat
model (Groq, OpenAI-compatible API) to respond using them, stores both the
message and the reply as new memories, and chains the turns with `NEXT` edges.
A knowledge graph of `Entity --HAS--> Statement --ABOUT--> Entity` facts lives
in the same store.

## Layout

- `src/` — the library, verified with Verus:
  - `embed` — tokenizer, FNV-1a hash and the whole-number bucket counts of the
    hashing-trick embedding; laws on how embeddings of joined texts add up.
  - `timestamp`, `numbers` — zero-padded millisecond timestamps (with the law
    that they sort as text in time order), decimal writing and `i64` parsing.
  - `json` — the JSON values the library builds, with their models.
  - `db` — the records and the exact HelixDB query bodies.
  - `facts` — finding-or-creating entities and storing a fact, as state machines.
  - `agent` — a turn and a thread walk, as state machines, with the laws of
    the conversation chain.
  - `llm` — prompt, request body, reading the answer, offline reply.
  - `cli` — command-line arguments and chat-prompt lines.
  - `text` — the std character and string functions the rest relies on.
- `app/` — the program: HTTP with `reqwest`, JSON with `serde_json`, the
  `tokio` runtime, the environment, the terminal, and the `f32` normalisation
  of embeddings.
- `tests/` — tests of the library.

Config via env: `HELIX_URL` (default `http://localhost:6969`), `GROQ_API_KEY`,
`GROQ_MODEL` (default `llama-3.3-70b-versatile`).
