//! A verified instruction handler for a native lamport transfer.
//!
//! Given three positional accounts (source, destination, and a reference to
//! the system program) and an eight-byte little-endian payload carrying the
//! requested amount, the handler checks that the source balance covers the
//! amount and then hands the host runtime a transfer to perform. All the
//! decisions — positional extraction, payload decoding, the balance guard —
//! are verified here; the actual ledger mutation belongs to the host.

pub mod account;
pub mod error;
pub mod handler;
pub mod instruction;

pub use account::AccountRef;
pub use error::TransferError;
pub use handler::process_instruction;
pub use handler::execute_transfer;
pub use handler::TransferAction;
pub use instruction::TransferInstruction;
