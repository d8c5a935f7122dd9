# uds_isotp

A Verus-verified library for two automotive diagnostic protocols:

- **ISO 15765-2 (ISO-TP over CAN)** — `src/isotp/`: frame types and their
  byte layout (`frame.rs`, `standard.rs`), segmentation of a message into a
  first frame and consecutive frames, reassembly (`reassembly.rs`), flow
  control (`common.rs`), the transfer state flags (`state.rs`) and the
  decisions of one endpoint on every frame (`transfer.rs`). `laws.rs` proves
  that decoding inverts encoding and that reassembly inverts segmentation.
- **ISO 14229-1 (UDS) responses** — `src/uds/`: service identifiers, negative
  response codes, parameter layouts, and the data of each service's positive
  response (`response/`), with the response envelope in `response/message.rs`.
  Each service states which data it accepts and what reading and writing it
  gives, and the envelope proves that reading a response's bytes and writing
  them again are inverse.

`app/` holds the asynchronous endpoint that drives an `rs-can` device with the
library's decisions, and the serde and display forms of library types.

`tests/` runs the library on concrete values.
