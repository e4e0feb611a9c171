# flowgate

Adaptive threshold rate controller for scored ML predictions: messages
carrying a `Flowgate-Score` header are emitted, rejected or buffered so that
a predictable number per second reaches the downstream system.

The crate is a Verus-verified library (`src/`) and a program around it
(`app/`).

## Library (`src/`, verified)

- `ieee` — `f64` values held as their bit patterns; IEEE `<`, `>=`, `clamp`
  and the total-order key, proved against a sign/magnitude specification.
- `buffer` — the message buffer of the buffered modes: a priority queue by
  score with age-based eviction, specified over the multiset of messages.
- `drain` — one cycle of the streaming drainer (eviction, backpressure pause,
  quality floor, emission of the best message).
- `percentile` — sorting of warmup scores and the percentile pick.
- `threshold` — the controller's state machine (cold start, warmup, PID,
  fixed), its decisions, its emission-rate window and the PID it owns.
- `pid` — the PID controller's state: bounds, anti-windup, resets and the
  clamping steps of an update.
- `config`, `text` — the service configuration and its KV entries,
  algorithm names, unsigned-number parsing, pipeline wiring.
- `metrics` — the exported metrics and the update each event makes.
- `producer`, `dashboard`, `exposition` — the producer's configuration and
  distribution names, the dashboard's routing, and the reading of scraped
  Prometheus text.

## Program (`app/`)

`flowgate service`, `flowgate producer` and `flowgate dashboard`: NATS
JetStream I/O, the HTTP/WebSocket dashboard, the metrics recorder, and the
floating-point parts (the sums of a PID update, the percentile position,
reading numbers from text, the producer's sampling, the moving averages and
the aggregation of scraped metrics).
