# lambda_web_adapter

An adapter that lets an ordinary web server answer AWS Lambda events. The adapter waits until the
web server is ready, turns each event into an HTTP request to it, and hands the response back.

- `src/` is the library, verified with Verus. It makes the decisions: the options that an
  environment stands for (`options`, `environment`), the URLs of the web server (`adapter`,
  `server_url`), when the server counts as ready (`readiness`), what request an event becomes
  (`forward`, `headers`), and how the adapter registers as a Lambda extension (`extension`).
  `text` holds the text operations that these rest on.
- `app/` is what talks to the network: the HTTP client, the Lambda runtime and the process
  environment. It asks the library what to do and does it.
- `tests/` run the library with the real `http`, `url`, `serde_json` and `lambda_http` crates.

What the library takes on trust of other crates stands in the functions marked
`#[verifier::external_body]`, in the `assume_specification` items and in the
`external_type_specification` declarations; each says what it claims. Proof functions whose names
begin with `law_` state what holds across the functions of the library.
