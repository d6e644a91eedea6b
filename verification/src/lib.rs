//! A toolbox for developers, free of input and output: every function
//! works on plain values, and what has to be done on the system (reading
//! the screen, running a program, asking the desktop portal, listening on
//! a socket) is handed to the caller as a plan or an action and comes back
//! as a value.
//!
//! - `color`, `text`: the sampled colour and its `#RRGGBB`, `rgb(..)` and
//!   `cmyk(..)` texts.
//! - `frame`, `hexcode`: one pixel out of a packed colour value, a bitmap
//!   file, a portable pixmap, a raw image buffer, a hexadecimal text.
//! - `tool`: the external programs of a capture and what their runs mean.
//! - `capture`: the pixel at a coordinate, by platform.
//! - `pick`, `hook`: the pixel that the user points at; on Linux through
//!   the desktop portal with a picker tool as fallback, on Windows through
//!   a mouse hook session that always restores the desktop.
//! - `cpf_cnpj`: Brazilian taxpayer numbers, generated and checked.
//! - `webhook`: records and rules of a webhook inspector.
//! - `error`: why a capture failed.

pub mod capture;
pub mod color;
pub mod cpf_cnpj;
pub mod error;
pub mod frame;
pub mod hexcode;
pub mod hook;
pub mod pick;
pub mod text;
pub mod tool;
pub mod webhook;
