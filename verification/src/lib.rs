//! Decoder for the serial protocol of an electronic chessboard peripheral.
//!
//! The board reports its state over a byte-oriented serial link. This crate
//! holds the verified core of a client for that link: the codecs that map
//! wire bytes to commands and piece identities, the framer that recovers
//! discrete messages from a raw octet stream, the decoder that turns framed
//! payloads into typed responses, and the tracker that maintains a logical
//! 64-square board and classifies it against the known starting layouts.
//! Opening the port and the blocking read loop live outside the library.

pub mod framer;
pub mod game;
pub mod protocol;
