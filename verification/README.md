# mcp_qdrant

The verified core of an MCP (Model Context Protocol) server that serves a
Qdrant collection through semantic-search tools, with local FastEmbed
embeddings and optional bearer-token authentication.

- `src/` is the library, checked by Verus: configuration and port parsing,
  the authorization decision, keyword filtering of search hits, embedding
  model selection, server texts and resources, the request sent for each
  tool, the start-up protocol and the sample data of a new collection.
- `app/` is the program around it: reading the environment and `.env`, the
  HTTP server and authentication middleware (axum), the MCP handlers (rmcp),
  the Qdrant client and the FastEmbed model. It asks the library for every
  decision and performs the outside work.
- `tests/` runs the library on concrete values.
