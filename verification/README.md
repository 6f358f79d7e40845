# synapse_sdk

Client library for the Synapse API, verified with Verus.

`src/` holds the logic, each function with a contract that Verus proves:

- `client` — the public and admin clients and their builders; every request
  is described as an `ApiRequest` (method, URL, key header, query, JSON body).
- `error` — `SynapseError`, how a failed HTTP status becomes an error, and
  which errors are transient.
- `retry` — the retry schedule: which outcomes are retried, the exponential
  backoff between attempts, and the bound on the number of attempts.
- `resources` — settlements, GraphQL and admin quota operations: their
  requests and how their responses are reported.
- `formatter` — the aligned text table of the command-line output.
- `resolvers` — the filtering of the transaction GraphQL resolvers.
- `text`, `json` — decimal rendering, substring search, JSON string quoting.

`app/` sends the requests with `reqwest`, sleeps between retries with
`tokio`, decodes and encodes JSON with `serde`, and prints tables.
