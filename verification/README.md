# veles

Veles is a local MCP server that gives language models controlled access to
DuckDuckGo search, public web pages and, with consent, Firefox rendering.

- `src/` is the verified library: configuration parsing, the public-URL policy
  (schemes, `localhost`, private and local IP addresses), DuckDuckGo result
  parsing and link resolution, response checks, text cleaning and page
  extraction, tool limits, cache keys, the request-spacing rules of the rate
  limiter and the browser-consent rules. HTML parsing (`scraper`, `html2md`)
  and URL parsing (`url`) are called through small trusted wrappers whose
  results are named in the contracts. A page that `html2md` cannot convert
  (nested 640 levels deep or more, or with a list item that finds no list
  inside a link, quote or emphasis) is reported as unconvertible rather than
  handed to it.
- `app/` is the server around it: environment, HTTP (`reqwest`), caches
  (`moka`), the WebDriver session (`fantoccini`), the clock and the MCP
  transport (`rmcp`).
- `tests/` runs the library with the real outside crates.
