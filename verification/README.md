# docan_rs

Diagnostic communication over CAN (UDS, ISO 14229-1, on ISO-TP).

- `src/` is the verified library: the server's state and what it answers to
  each diagnostic service (`server::context`, `server::service`,
  `server::dtc` for ReadDTCInformation), the session state, the first look
  at an incoming message (`server::dispatch`), and the client's judgement of
  responses (`client`). `server::laws` states properties that span several
  requests. `server::request_data` reads the parameters of DTC report and
  authentication requests. The library's calls into the `iso14229-1`
  crate stand in `server::uds_codec` and `server::dispatch`, each with its
  contract.
- `app/` is the I/O around it: the ISO-TP transport, the encoding of the
  positive answers' payloads and of the client's requests with the
  `iso14229-1` types, the configuration file and the async loops of
  `DoCanServer` and `DoCanClient`.
- `tests/` runs the library on concrete values.
