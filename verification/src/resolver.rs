use std::rc::Rc;

use vstd::prelude::*;

use crate::error::Error;
use crate::inspect::FindAddrOpts;
use crate::inspect::SymInfo;
use crate::symbolize::AddrLineInfo;

verus! {

/// A location in some address space. What it is relative to is up to the
/// resolver that is asked about it.
pub type Addr = usize;

/// What every source of symbols has to offer.
///
/// Finding nothing is an answer, not a failure: an operation fails only
/// when the data behind the resolver cannot be read.
///
/// The operations carry no contract, so nothing is taken for granted of a
/// resolver that comes from outside. Contracts elsewhere say of a value
/// that it is an answer of a resolver: see [`answers_syms`],
/// [`answers_line_info`] and [`answers_file_name`].
pub trait SymResolver {
    /// Find the symbols that cover `addr`: each with its name and the
    /// address it starts at. The list is empty if there is none.
    fn find_syms(&self, addr: Addr) -> Result<Vec<(&str, Addr)>, Error>;

    /// Find the symbols called `name`. The list is empty if there is none,
    /// or if the resolver only looks up by address.
    fn find_addr(&self, name: &str, opts: &FindAddrOpts) -> Result<Vec<SymInfo>, Error>;

    /// Find the source file, line and column that `addr` was compiled from,
    /// or `None` if the resolver has no such information.
    fn find_line_info(&self, addr: Addr) -> Result<Option<AddrLineInfo>, Error>;

    /// The position of `addr` in the file behind the resolver, or `None` if
    /// there is no such position.
    fn addr_file_off(&self, addr: Addr) -> Option<u64>;
}

/// A resolver that reads from one file and can name it.
pub trait FileBacked {
    /// The name of the file behind the resolver.
    fn file_name(&self) -> &str;
}

/// Whether `found` is an answer of `resolver` when it is asked for the
/// symbols that cover `addr`.
pub open spec fn answers_syms<'a, R: SymResolver>(
    resolver: &'a R,
    addr: Addr,
    found: Result<Vec<(&'a str, Addr)>, Error>,
) -> bool {
    call_ensures(R::find_syms, (resolver, addr), found)
}

/// Whether `found` is an answer of `resolver` when it is asked for the
/// source location of `addr`.
pub open spec fn answers_line_info<R: SymResolver>(
    resolver: &R,
    addr: Addr,
    found: Result<Option<AddrLineInfo>, Error>,
) -> bool {
    call_ensures(R::find_line_info, (resolver, addr), found)
}

/// Whether `name` is what `resolver` gives as the name of its file.
pub open spec fn answers_file_name<'a, R: FileBacked>(resolver: &'a R, name: &'a str) -> bool {
    call_ensures(R::file_name, (resolver,), name)
}

/// A resolver that is shared answers as the resolver itself does. This
/// is how one table of kernel symbols serves several kernel resolvers.
impl<R: SymResolver> SymResolver for Rc<R> {
    fn find_syms(&self, addr: Addr) -> (found: Result<Vec<(&str, Addr)>, Error>)
        ensures
            answers_syms(&**self, addr, found),
    {
        (**self).find_syms(addr)
    }

    fn find_addr(&self, name: &str, opts: &FindAddrOpts) -> (found: Result<Vec<SymInfo>, Error>)
        ensures
            call_ensures(R::find_addr, (&**self, name, opts), found),
    {
        (**self).find_addr(name, opts)
    }

    fn find_line_info(&self, addr: Addr) -> (found: Result<Option<AddrLineInfo>, Error>)
        ensures
            answers_line_info(&**self, addr, found),
    {
        (**self).find_line_info(addr)
    }

    fn addr_file_off(&self, addr: Addr) -> (off: Option<u64>)
        ensures
            call_ensures(R::addr_file_off, (&**self, addr), off),
    {
        (**self).addr_file_off(addr)
    }
}

impl<R: FileBacked> FileBacked for Rc<R> {
    fn file_name(&self) -> (name: &str)
        ensures
            answers_file_name(&**self, name),
    {
        (**self).file_name()
    }
}

} // verus!
