//! Resolution of raw addresses into symbol names and source locations.
//!
//! The crate holds the part of address symbolization that is independent of
//! any file format: the operations every symbol source has to offer
//! ([`SymResolver`]), the description of where symbols come from
//! ([`symbolize::Source`]), the kernel resolver that combines a symbol table
//! with a kernel image ([`kernel::KernelResolver`]), and the symbolizer
//! that picks the resolver for a source and turns its answers into one list
//! of results per address ([`symbolize::Symbolizer`]).
//!
//! Reading files and processes is left to the resolvers, which come from
//! outside ([`symbolize::Backends`]). What a resolver answers is not known
//! here, so the contracts say how each result relates to the answers that
//! the resolvers gave.

pub mod error;
pub mod inspect;
pub mod kernel;
pub mod pid;
pub mod resolver;
pub mod symbolize;
pub mod text;

pub use error::Error;
pub use error::ErrorKind;
pub use pid::Pid;
pub use resolver::Addr;
pub use resolver::FileBacked;
pub use resolver::SymResolver;
