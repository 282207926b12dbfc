use vstd::prelude::*;

verus! {

/// Kind-tagged failure values for every operation of the workbook layer.
///
/// Failures coming out of the container decoder keep the message the decoder
/// produced; failures raised by this crate's own lifecycle and capability
/// rules carry no message.
#[derive(Debug, Clone, PartialEq, Eq)]
pub enum Error {
    /// The underlying byte source could not be read.
    Io(String),
    /// The container archive is corrupt.
    Zip(String),
    /// The container's markup is corrupt.
    Xml(String),
    /// The file is encrypted and cannot be read without a password.
    Password,
    /// No worksheet has the requested name or index.
    WorksheetNotFound(String),
    /// No table has the requested name.
    TableNotFound(String),
    /// The workbook's format has no notion of tables.
    TablesNotSupported,
    /// Tables were never requested when the workbook was opened.
    TablesNotLoaded,
    /// The sheet was opened without formula capture, so formula text is
    /// unavailable.
    FormulasDisabled,
    /// The operation needs the live backend, but the workbook was closed.
    WorkbookClosed,
    /// Any other failure the decoder reports.
    Generic(String),
}

} // verus!
