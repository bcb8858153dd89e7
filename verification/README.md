# kernel

The core of a Samaritan node: a websocket server whose sessions register
samaritans and apps on a simulated chain and keep their data in JSON files
named after hashes, in the manner of IPFS.

`src/` is the library, verified with Verus:

- `table` — string-keyed tables in insertion order, the model of the node's JSON objects;
- `text`, `hash`, `json` — splitting and comparing text, FNV-1a hashes written in
  decimal, JSON string literals and objects;
- `random` — random suffixes and seed phrases;
- `kernel` — the messages between the actors and the websocket command protocol;
- `utility` — keyring, DID and path helpers;
- `step` — what a step of a request asks its caller to read, write or answer;
- `network` — the network actor: its cache of app table addresses and the
  requests that read, write and remove records, as a step function;
- `chain` — the chain client: registration of samaritans and apps, as a step function;
- `laws` — properties of the library as a whole, proved.

`app/` is the server around it: the actix actors, the websocket route and the
file reads and writes that the steps ask for.
