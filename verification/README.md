# solver-core

The verified core of a Solana intent solver. A client states a swap intent;
the service validates it, fetches an order from Jupiter, simulates the
returned transaction, and sends it with retries and a priority fee.

`src/` is the library, verified with Verus:

- `fee_estimator` — the cache of recent prioritization fees and the
  percentile quoted for each urgency level (with a verified sort).
- `rpc_manager` — round-robin rotation over RPC endpoints that skips
  unhealthy ones.
- `executor` — reading simulation replies, classifying send errors, and the
  retry schedule with exponential backoff.
- `swapper` — swap intents, their validation and the Jupiter order URL.
- `service` — the decisions of the HTTP handlers, including the state
  machine of an `/execute` request.
- `payer` — where the payer key comes from and the low-balance threshold.
- `error`, `text` — the error type and string helpers.

`app/` is the HTTP service around it (axum, RPC clients, timers, logging).
