# bmi270

Driver logic for the Bosch BMI270 IMU, verified with Verus.

- `src/hl`: the incremental parser of the FIFO data stream (`FrameParser`), its
  mathematical model (`next_state`, `frame_complete`, `frame_of`,
  `feed_outcome`) and the laws that relate its operations (`hl::laws`).
  `hl/buffers.rs` holds the `heapless::Vec` buffers behind trusted wrappers.
- `src/ll`: the auxiliary burst lengths, the device error type, the sample
  field sets and the byte framing of SPI register transfers.
- `src/timeout.rs`: flattening of results of operations run under a timeout.
- `app/lib.rs`: the `device-driver` SPI interface, which sends the framing
  computed in `src/ll/spi.rs` over an `embedded-hal-async` bus.
