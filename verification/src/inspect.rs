use vstd::prelude::*;

use crate::resolver::Addr;

verus! {

/// The kind of thing a symbol names.
#[derive(Clone, Copy, Debug, PartialEq, Eq, Structural)]
pub enum SymType {
    /// Not known, or of no interest.
    Unknown,
    /// A function.
    Function,
    /// A variable.
    Variable,
}

/// Where a symbol is, as found by its name.
#[derive(Clone, Debug)]
pub struct SymInfo {
    /// The name of the symbol.
    pub name: String,
    /// The address at which the symbol starts.
    pub addr: Addr,
    /// The number of bytes the symbol covers.
    pub size: usize,
    /// The kind of the symbol.
    pub sym_type: SymType,
    /// The position of the symbol in its file.
    pub file_offset: u64,
    /// The file that holds the symbol, where it was asked for and is known.
    pub obj_file_name: Option<String>,
}

/// What a lookup by name should report.
#[derive(Clone, Copy, Debug, PartialEq, Eq, Structural)]
pub struct FindAddrOpts {
    /// Report the position of the symbol in its file.
    pub offset_in_file: bool,
    /// Report the file that holds the symbol.
    pub obj_file_name: bool,
    /// The kind of symbol to look for.
    pub sym_type: SymType,
}

} // verus!
