# web_search_mcp

A Model Context Protocol server that searches the web through DuckDuckGo Lite
and extracts readable text from pages, with a server-wide request throttle.

- `src/` is the verified library (Verus):
  - `throttle`: the shared request timer (random target interval, wait after
    the previous request, cooldown after a bot-detection page), with its laws;
  - `search`: one search as a state machine from state and event to next state
    and action (sleep, fetch, finish) plus the log files to write;
  - `results`: the hits of a result page (HTML selection by `scraper`);
  - `reader`: the text of a fetched page (rendering by `html2text`);
  - `research`, `tools`, `config`: request building, tool defaults, prompt and
    resource texts, and the startup settings;
  - `text`: whitespace, trimming, substring search, joining, decimal numbers.
- `app/` runs the server: command line, HTTP and stdio transports (`rmcp`,
  `axum`), the HTTP client (`reqwest`), sleeping, logging to disk, and the
  serde copies of the library's values.
- `tests/` exercises the library on concrete inputs.
