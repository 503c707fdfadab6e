//! Configuration of Xilinx 7-series FPGAs over JTAG: device identification,
//! the configuration status register, and the sequences of TAP transactions
//! that read the device and load a bitstream.

pub mod bits;
pub mod bitstream;
pub mod command;
pub mod idcode;
pub mod program;
pub mod protocol;
pub mod status;

pub use bits::{reverse_bits_in_buffer, reverse_bits_in_byte};
pub use bitstream::Bitstream;
pub use command::Command;
pub use idcode::{auto_tap_idx, check_tap_idx, X7IDCODE};
pub use program::{Action, Phase, Programming};
pub use protocol::{Error, Step};
pub use status::Status;
