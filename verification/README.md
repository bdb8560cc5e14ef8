# aronline

A client for the AR Online API -- the /v3 surface and the legacy gateway --
whose decisions are proved with Verus.

- `src/` is the verified library: the routes and what each one sends, the two
  credentials and where each may travel, percent-encoding of ids, the URL of a
  call, how a refusal is read (the /v3 catalog body, the gateway's
  `{ statusCode, message }` and its `{ data, statusCode }` envelope that
  answers 200 even on error), the strict base64 decoder of the sending proof,
  and the builder. Every public function carries its contract; the laws
  (`law_*`) are proof functions.
- `app/` is what stands around it: the HTTP agent (`ureq`), the JSON shapes
  read and written with serde, the `Client` and its resources, and the error
  types that implement `Display` and `std::error::Error`.
- `tests/` runs the library on concrete values.
