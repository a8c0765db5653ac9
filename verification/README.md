# publication_api

A client of the Russian legal publication portal (publication.pravo.gov.ru),
split into a verified library (`src/`, Verus) and its network side (`app/`).

`src/` holds what the client decides and computes, each function with a
contract:

- `date`: dates in the portal's two formats (`DD.MM.YYYY`,
  `YYYY-MM-DDThh:mm:ss`), with proofs that writing and reading a dot date
  give back what was written;
- `publication_api`, `reqwest_client`: the requests of the two clients (their
  paths, query parameters, headers, client settings and full addresses) and
  the status check of an answer;
- `paging`: which pages of a search to ask for, the progress to report, and
  the cards collected;
- `models`, `document_type`, `signatory_authority`, `error`: the data and the
  walk through a document's page images;
- `query`: the only place that calls the `url` parser (through `reqwest`).

`app/` sends the requests (`reqwest` with retries, `tokio`), reads the JSON
bodies with `serde`, and sets up logging.
