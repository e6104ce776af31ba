# qbittorrent-mcp-rs

An MCP (Model Context Protocol) server that lets an assistant drive one or more
qBittorrent instances through their Web API: listing and managing torrents,
searching, RSS, transfer limits, application settings, resources and prompts.

## Layout

- `src/` is the library, written in Verus. Every function there carries a
  contract and is proved:
  - `cli.rs`, `config.rs`: command-line grammar and configuration layering
    (command line over file over defaults, instances by name);
  - `client.rs`: the requests sent to the qBittorrent Web API, the login and
    retry decision, and the mapping of replies;
  - `server/`: the MCP protocol — request routing and replies, tool, resource
    and prompt catalogues, argument checking for every tool, the rules of the
    maintenance tools (renaming, cleanup, duplicates), the views of the
    torrent list (search, summary table, chosen fields), polling of searches and
    torrent states, and the completion notifications;
  - `text.rs`, `json.rs`: the small string and JSON-text helpers the rest uses.
- `tests/` holds the tests, run against the compiled library.
- `app/` is the program around the library: argument and file reading, HTTP to
  qBittorrent, the stdio and HTTP transports, logging and the event loop.
  It is ordinary Rust; it hands the library plain values and acts on what the
  library decides.
