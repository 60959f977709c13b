# shylock

Reads the Spanish public auctions published on the BOE auction portal
(subastas.boe.es) into auction, management and asset records, and holds
the logic of the front ends that list them.

The library under `src/` is written in Verus: every function states its
behaviour in `requires` / `ensures` clauses and is verified.

- `text`: character-level string functions (trimming, finding, replacing,
  integers, accents).
- `concepts`, `provinces`, `categories`: the vocabularies of the pages, with
  their parsers and display names.
- `table`: the concept table that a parsed page yields.
- `dates`, `types`: the records built from the tables.
- `html`: access to parsed HTML through the `scraper` crate.
- `parser`: the parsers of the portal's pages and of the cadastre responses.
- `util`: identifiers carried by links, and name normalization.
- `scrape`: the steps of scraping one auction and of going through the
  auction links of a result page, and the state updates a result page gives.
- `catalog`: the catalog that the front ends show (highest value, provinces,
  cities, filters, orders, sorting by the table headers).
- `frontend`, `web`, `listing`: the front ends' routes, states, detail rows
  and texts.
- `geosolver`: the addresses of the geographic services.

`app/` holds what runs around the library: serde copies of the records,
writing them to files, and the loops that perform what the scraper's steps
ask for (fetching pages, asking and updating the store).
