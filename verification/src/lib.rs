//! Protocol core for a RAiO RA8875-class SPI display controller.
//!
//! The controller is driven through two-byte command/data frames on a shared
//! serial bus. This crate holds the verified heart of such a driver: the
//! register map, the wire framing, the typed 8/16/32-bit register access
//! protocols, the display bring-up and text-streaming sequences, and the
//! block-transfer-engine (BTE) fill sequencing.
//!
//! The bus itself is hardware; here a [`display::RaioDisplay`] session records
//! every frame it would put on the wire, in order, and draws the bytes that
//! reads would return from a response script supplied up front. Every
//! operation's contract states exactly which frames it issues and which
//! responses it consumes, so the protocol is checked against the register
//! access rules the controller demands. A runner that owns the real bus
//! replays the recorded frames and feeds the bytes it reads back as the
//! script.

pub mod regs;
pub mod frame;
pub mod display;
pub mod bte;
