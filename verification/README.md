# hex-mem-mcp

Agent long-term memory MCP server backed by HelixDB, with its query building and its
tool decisions verified with Verus.

- `src/` — the verified library:
  - `json.rs`: JSON documents (`Json`) and their model (`JsonV`), builders and readers;
  - `text.rs`: trimming, trailing-character stripping and joining of strings;
  - `helix.rs`, `helix/steps.rs`: Helix property encodings, query root steps, the query
    batch, the client's URLs and the verdicts on its answers;
  - `embed.rs`: the embeddings request and the reading of its reply;
  - `memory.rs`: the four tools (`memory_store`, `memory_recall`, `memory_forget`,
    `memory_stats`) as steps between the calls they make, and the laws that scope every
    query to the calling agent;
  - `startup.rs`: waiting for the vector index to become active.
- `app/` — the program: configuration, HTTP calls, JSON text, floating-point values and the
  MCP server.
- `tests/` — tests of the library.
