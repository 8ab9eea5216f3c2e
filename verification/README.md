# rate_limiter_aimd

Retry and backoff policies for HTTP clients, and clients of the Gemini and OpenAI APIs on top of
them. The decisions are verified with Verus.

- `src/` is the library. `adaptive_concurrency::retries` holds the Fibonacci and the exponential
  policy with the laws of their delays, `adaptive_concurrency::reqwest_integration` the steps of a
  call and what signals an overloaded server, `gemini_client` and `openai_client` the requests that
  are built and the answers that are read. Spans are counted in nanoseconds; floating-point settings are carried as bit patterns.
- `app/` sends requests, sleeps through delays, and reads and writes JSON. It layers no limit on
  concurrency: `AdaptiveConcurrencySettings` are carried for a limiter to use.
- `tests/` runs the library with the real outside crates.
