//! Finding symbol names and source locations for raw addresses.

use vstd::prelude::*;

pub mod source;
pub mod symbolizer;

pub use source::Elf;
pub use source::Gsym;
pub use source::GsymData;
pub use source::GsymFile;
pub use source::Kernel;
pub use source::Process;
pub use source::Source;
pub use symbolizer::locate;
pub use symbolizer::symbolize_addrs;
pub use symbolizer::Backends;
pub use symbolizer::symbolize_addr;
pub use symbolizer::SymbolizedResult;
pub use symbolizer::Symbolizer;

verus! {

/// The place in the source that an address was compiled from.
#[derive(Clone, Debug)]
pub struct AddrLineInfo {
    /// The source file.
    pub path: String,
    /// The line in the file, counted from one.
    pub line: usize,
    /// The column in the line, or zero if it is not known.
    pub column: usize,
}

} // verus!
