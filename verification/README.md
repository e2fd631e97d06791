# fatcat

The request handling, routing and URL rules of the fatcat catalog API,
written in Verus and verified against their contracts.

- `src/` is the verified library:
  - `decimal`: reading and writing decimal integers, as the server reads path
    parameters;
  - `percent`: percent-encoding of path segments and query strings, and the
    decoding that undoes it;
  - `models`: the API's data model;
  - `responses`: the answer of every operation and the HTTP status it is
    sent with;
  - `server`: the route table of the API and the rules by which a request's
    parameters are read, or the request is refused;
  - `service`: the routing of the hyper service, its parameter rules and the
    statuses of its responses;
  - `client`: a client's base path, the request line of each call, and how a
    response is read by its status.
- `tests/` runs the library on concrete values.
- `app/` holds what cannot be verified: the iron server, the HTTP client's
  transport, and the JSON forms of the models.
