//! Driver logic for the Bosch BMI270 inertial measurement unit: the register
//! access framing of the SPI interface and an incremental parser for the
//! sensor's FIFO data stream.

pub mod ll;
pub mod hl;
pub mod timeout;
