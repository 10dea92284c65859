//! Ownership-sensitive operations on host resources: upgrading a duplex
//! stream handle to an HTTP connection, toggling a terminal between raw and
//! cooked mode, probing the console size, answering a line prompt, and
//! carrying native values through a structured record.

pub mod console;
pub mod http_start;
pub mod prompt;
pub mod resource;
pub mod transl8;
pub mod tty;
