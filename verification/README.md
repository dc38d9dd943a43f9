# culvert

Typed access to the HDMI 2.1 SCDC (Status and Control Data Channel) register map,
verified with Verus.

- `src/register.rs` — the register value types (`TmdsConfig`, `FrlConfig`, `StatusFlags`,
  `UpdateFlags`, `CedCounters`, ...) with the byte layout of each register stated as a spec
  function and the encoders/decoders proved against it.
- `src/client/` — `Scdc<T>`, the stateless client over any `ScdcBus` transport. Its view is
  a ghost log of the register accesses it made, each with the transport's answer, and
  `transport_history()` gives the transport's state around each access. Every method's
  contract says which accesses it appends and how its result (and any transport error)
  follows from the transport's answers. `src/client/bus.rs` is the only code that calls the
  transport; it keeps the log.
- `src/laws.rs` — properties that relate several functions (clearing update flags writes the
  bits reading reports, reserved bits are ignored, configurations are encoded injectively, ...).
- `src/address.rs`, `src/bits.rs`, `src/error.rs` — register addresses, bit helpers, errors.
- `app/` — unverified glue: `HalTransport` adapts any `hdmi_hal::scdc::ScdcTransport` to
  `ScdcBus`, and `PlumbobScdc` implements `plumbob::ScdcClient` over a client.
