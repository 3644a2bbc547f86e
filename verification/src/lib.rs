//! A minimal terminal core: a non-blocking duplex channel over one
//! pseudo-terminal descriptor, an append-oriented screen buffer with cursor
//! tracking, and a translator from user input events to the byte sequences a
//! terminal-aware program expects. A host loop polls the channel, feeds the
//! screen, and sends translated input; presentation is the host's business.

pub mod channel;
pub mod input;
pub mod screen;
