# openai_resources

Resource families of an OpenAI API client, with their behaviour proved by
Verus.

The library (`src/`) decides everything a call involves short of the network:
for each endpoint it plans the request (method, path with percent-encoded ids
and form-encoded query, headers, JSON or multipart body) and refuses bad input
before anything is sent; it reads server-sent event streams frame by frame and
folds chat and legacy completion chunks into the final completion; it decides
each step of run polling and of waiting for file processing. Every public
function states its result in its contract, and the laws that tie several
calls together (stream accumulation, deadlines that stay passed, encodings
that keep one path segment or one query component) are public proof
functions.

Layout:

- `src/request.rs`, `src/query.rs`, `src/ids.rs`, `src/text.rs`: requests,
  query strings, path identifiers and the text operations they are built from.
- `src/sse.rs`: event-stream lines to frames.
- `src/json.rs`: the few facts about `serde_json` values the library relies on.
- one module per resource family: `admin`, `audio`, `batches`, `beta`, `chat`,
  `completions`, `containers`, `conversations`, `embeddings`, `evals`, `files`,
  `fine_tuning`, `graders`, `images`, `models`.
- `app/`: the blocking HTTP transport, live streams, polling loops with real
  sleeps, serde forms of the library's types, and the values that carry
  floating-point numbers.
- `tests/`: tests of the library on concrete values.
