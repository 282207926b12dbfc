//! A canonical value model over decoded spreadsheet cells, with a uniform
//! workbook / sheet / table abstraction across the four container formats
//! that the underlying decoder understands.
//!
//! The crate turns per-format "raw typed cell" records into one tagged
//! [`cell::CellValue`] type, wraps decoded cell grids in a [`range::Range`]
//! with logical bounds, and drives the open → read → close lifecycle of a
//! [`workbook::CalamineWorkbook`] with a precise error taxonomy.

pub mod cell;
pub mod errors;
pub mod range;
pub mod sheet;
pub mod table;
pub mod workbook;
