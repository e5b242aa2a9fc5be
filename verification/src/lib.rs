//! Core of a driver for Semtech SX126x-family sub-GHz LoRa radio
//! transceivers: the SPI command protocol, the radio operating-mode state
//! machine, and the LoRa physical-layer configuration and transceive path.
//!
//! The driver is written against the [`board::Board`] capability trait, which
//! abstracts the chip-select, reset and antenna pins, the BUSY and DIO1 wait
//! lines, and raw SPI transfers. Every contract in this crate speaks of the
//! trace of bus events that a board observes, so the chip-dictated command
//! sequences (CS bracketing, BUSY handshakes, opcode frames) are stated and
//! proved, not merely exercised.

pub mod board;
pub mod facade;
pub mod fake;
pub mod lora;
pub mod mod_params;
pub mod radio;
pub mod subroutine;
