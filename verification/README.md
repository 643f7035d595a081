# satcli

Tools for the Mexican Tax Service (SAT): reading CFDI invoices and crawling the SAT portals to
validate credentials and download invoices. The logic is a Verus library whose functions carry
`requires`/`ensures` contracts proved by Verus; a thin command line (`sat-cli`) performs the I/O.

## Layout

- `src/` — the verified library.
  - `text.rs` — character-sequence helpers (search, trimming, decimal text).
  - `dates.rs` — calendar dates; reading and writing them through chrono.
  - `cfdi/` — the CFDI model: catalogs, the invoice and its complements, the XML events that
    quick-xml reports, and `document.rs`, which prepares a document for reading (byte-order
    marks, HTML error pages, the root's namespace declarations, the `Complemento` element).
  - `satcrawler/` — the crawler's configuration, the date ranges a download searches, the
    decisions of signing in, retrying, reading result pages, downloading invoices and the
    tax-status certificate, and the events a crawl emits.
  - `cli.rs` — the command line's own logic: argument handling, paths, the invoice handler and
    the `doctor` report.
  - `crawler.rs`, `command.rs` — the first stand-alone credentials check and its command line.
- `tests/` — tests of the library on concrete values.
- `app/` — `sat-cli`: argument parsing (clap), the configuration file, serde copies of the CFDI
  types, and the crawls that drive the browser (chromiumoxide), the HTTP client (reqwest) and the
  captcha service (2captcha).
