use vstd::prelude::*;
use vstd::string::StringExecFns;

use crate::error::Error;
use crate::error::ErrorKind;
use crate::inspect::FindAddrOpts;
use crate::inspect::SymInfo;
use crate::resolver::answers_file_name;
use crate::resolver::answers_line_info;
use crate::resolver::answers_syms;
use crate::resolver::Addr;
use crate::resolver::FileBacked;
use crate::resolver::SymResolver;
use crate::symbolize::AddrLineInfo;
use crate::text::write_str;

verus! {

/// A resolver for kernel addresses.
///
/// It answers from up to two sources, neither of which is complete: a flat
/// table of kernel symbols, which has names and no line information, and
/// the image of the kernel, which may have both. At least one of the two is
/// always there.
pub struct KernelResolver<K, E> {
    ksym_resolver: Option<K>,
    elf_resolver: Option<E>,
}

/// The description of the failure to make a kernel resolver of no source.
pub const NO_SOURCE: &'static str =
    "failed to create kernel resolver: neither ksym resolver nor kernel image ELF resolver are present";

/// The text that identifies a kernel resolver whose symbol table is read
/// from `ksym_file` and whose kernel image is `elf_file`; a name is empty
/// where the resolver has no such source.
pub open spec fn identity(ksym_file: Seq<char>, elf_file: Seq<char>) -> Seq<char> {
    "KernelResolver "@ + ksym_file + " "@ + elf_file
}

impl<K, E> KernelResolver<K, E> {
    #[verifier::type_invariant]
    spec fn has_source(self) -> bool {
        self.ksym_resolver is Some || self.elf_resolver is Some
    }

    /// The resolver for the table of kernel symbols, if there is one.
    pub closed spec fn ksym(&self) -> Option<K> {
        self.ksym_resolver
    }

    /// The resolver for the kernel image, if there is one.
    pub closed spec fn elf(&self) -> Option<E> {
        self.elf_resolver
    }

    /// The kernel resolver with the given sources.
    pub closed spec fn with(ksym_resolver: Option<K>, elf_resolver: Option<E>) -> Self {
        KernelResolver { ksym_resolver, elf_resolver }
    }

    /// Combine a resolver for the table of kernel symbols and a resolver
    /// for the kernel image. Without either there is nothing to answer
    /// from, and no resolver is made.
    pub fn new(ksym_resolver: Option<K>, elf_resolver: Option<E>) -> (made: Result<Self, Error>)
        ensures
            made is Err <==> ksym_resolver is None && elf_resolver is None,
            made matches Ok(resolver) ==> {
                &&& resolver == Self::with(ksym_resolver, elf_resolver)
                &&& resolver.ksym() == ksym_resolver
                &&& resolver.elf() == elf_resolver
            },
            made matches Err(err) ==> err.kind == ErrorKind::NotFound && err.message@
                == NO_SOURCE@,
    {
        if ksym_resolver.is_none() && elf_resolver.is_none() {
            return Err(Error::new(ErrorKind::NotFound, NO_SOURCE));
        }
        Ok(KernelResolver { ksym_resolver, elf_resolver })
    }

    /// The resolver for the table of kernel symbols, if there is one.
    pub fn ksym_resolver(&self) -> (ksym: Option<&K>)
        ensures
            ksym is Some <==> self.ksym() is Some,
            ksym matches Some(resolver) ==> self.ksym() == Some(*resolver),
    {
        self.ksym_resolver.as_ref()
    }

    /// The resolver for the kernel image, if there is one.
    pub fn elf_resolver(&self) -> (elf: Option<&E>)
        ensures
            elf is Some <==> self.elf() is Some,
            elf matches Some(resolver) ==> self.elf() == Some(*resolver),
    {
        self.elf_resolver.as_ref()
    }
}

/// Whether `name` is what is shown for the file of `resolver`: the name
/// that the resolver gives of its file, the empty name where there is no
/// resolver.
pub open spec fn shows_file<'a, R: FileBacked>(resolver: &'a Option<R>, name: &'a str) -> bool {
    match resolver {
        Some(resolver) => answers_file_name(resolver, name),
        None => name@.len() == 0,
    }
}

/// The text that identifies a kernel resolver whose symbol table is read
/// from `ksym_file` and whose kernel image is `elf_file`.
pub fn identity_string(ksym_file: &str, elf_file: &str) -> (text: String)
    ensures
        text@ == identity(ksym_file@, elf_file@),
{
    let mut text = String::from_str("KernelResolver ");
    text.append(ksym_file);
    text.append(" ");
    text.append(elf_file);
    text
}

impl<K: FileBacked, E: FileBacked> KernelResolver<K, E> {
    /// The text that identifies this resolver: the words `KernelResolver`,
    /// the file of the symbol table and the file of the kernel image, with
    /// one space between them and the empty name for a source that is not
    /// there. It tells apart a resolver with both sources, one with the
    /// table only and one with the image only.
    pub fn debug_string(&self) -> (text: String)
        ensures
            exists|ksym_file: &str, elf_file: &str|
                #![trigger identity(ksym_file@, elf_file@)]
                {
                    &&& shows_file(&self.ksym(), ksym_file)
                    &&& shows_file(&self.elf(), elf_file)
                    &&& text@ == identity(ksym_file@, elf_file@)
                },
    {
        proof {
            reveal_strlit("");
        }
        let ksym_file = match self.ksym_resolver.as_ref() {
            Some(resolver) => resolver.file_name(),
            None => "",
        };
        let elf_file = match self.elf_resolver.as_ref() {
            Some(resolver) => resolver.file_name(),
            None => "",
        };
        let text = identity_string(ksym_file, elf_file);
        assert(shows_file(&self.ksym(), ksym_file));
        assert(shows_file(&self.elf(), elf_file));
        text
    }
}

impl<K: FileBacked, E: FileBacked> std::fmt::Debug for KernelResolver<K, E> {
    /// Writes the text of [`KernelResolver::debug_string`].
    fn fmt(&self, f: &mut std::fmt::Formatter<'_>) -> std::fmt::Result {
        let text = self.debug_string();
        write_str(f, text.as_str())
    }
}

impl<K: SymResolver, E: SymResolver> SymResolver for KernelResolver<K, E> {
    /// Names come from the table of kernel symbols alone where there is
    /// one. The kernel image is asked only in its absence.
    fn find_syms(&self, addr: Addr) -> (found: Result<Vec<(&str, Addr)>, Error>)
        ensures
            self.ksym() matches Some(ksym) ==> answers_syms(&ksym, addr, found),
            self.ksym() is None ==> (self.elf() matches Some(elf) && answers_syms(
                &elf,
                addr,
                found,
            )),
    {
        proof {
            use_type_invariant(self);
        }
        if let Some(ksym_resolver) = self.ksym_resolver.as_ref() {
            ksym_resolver.find_syms(addr)
        } else {
            self.elf_resolver.as_ref().unwrap().find_syms(addr)
        }
    }

    /// Looking up kernel symbols by name is not offered: the answer is
    /// always the empty list.
    fn find_addr(&self, _name: &str, _opts: &FindAddrOpts) -> (found: Result<Vec<SymInfo>, Error>)
        ensures
            found matches Ok(infos) && infos@.len() == 0,
    {
        Ok(Vec::new())
    }

    /// Line information comes from the kernel image alone. Without one
    /// there is none, which is no failure.
    fn find_line_info(&self, addr: Addr) -> (found: Result<Option<AddrLineInfo>, Error>)
        ensures
            self.elf() matches Some(elf) ==> answers_line_info(&elf, addr, found),
            self.elf() is None ==> found == Ok::<Option<AddrLineInfo>, Error>(None),
    {
        if let Some(resolver) = self.elf_resolver.as_ref() {
            resolver.find_line_info(addr)
        } else {
            Ok(None)
        }
    }

    /// A kernel address has no position in a file.
    fn addr_file_off(&self, _addr: Addr) -> (off: Option<u64>)
        ensures
            off is None,
    {
        None
    }
}

/// Whether the answer `found` holds a symbol called `name` that starts at
/// `addr`.
pub open spec fn finds(found: Result<Vec<(&str, Addr)>, Error>, name: Seq<char>, addr: Addr) -> bool {
    found matches Ok(syms) && exists|i: int|
        0 <= i < syms@.len() && (#[trigger] syms@[i]).0@ == name && syms@[i].1 == addr
}

/// With a table of kernel symbols, whatever the kernel resolver answers
/// when asked for the symbols at an address is an answer of the table,
/// whether or not there is a kernel image.
pub proof fn lemma_find_syms_prefers_table<'a, K: SymResolver, E: SymResolver>(
    resolver: &'a KernelResolver<K, E>,
    addr: Addr,
    found: Result<Vec<(&'a str, Addr)>, Error>,
)
    requires
        resolver.ksym() is Some,
        answers_syms(resolver, addr, found),
    ensures
        answers_syms(&resolver.ksym()->0, addr, found),
{
}

/// With a kernel image and no table of kernel symbols, whatever the kernel
/// resolver answers when asked for the symbols at an address is an answer
/// of the kernel image.
pub proof fn lemma_find_syms_falls_back_to_image<'a, K: SymResolver, E: SymResolver>(
    resolver: &'a KernelResolver<K, E>,
    addr: Addr,
    found: Result<Vec<(&'a str, Addr)>, Error>,
)
    requires
        resolver.ksym() is None,
        resolver.elf() is Some,
        answers_syms(resolver, addr, found),
    ensures
        answers_syms(&resolver.elf()->0, addr, found),
{
}

/// Without a kernel image, the only answer of the kernel resolver when
/// asked for line information is `None`, at every address; it is never a
/// failure.
pub proof fn lemma_no_image_no_line_info<K: SymResolver, E: SymResolver>(
    resolver: &KernelResolver<K, E>,
    addr: Addr,
    found: Result<Option<AddrLineInfo>, Error>,
)
    requires
        resolver.elf() is None,
        answers_line_info(resolver, addr, found),
    ensures
        found == Ok::<Option<AddrLineInfo>, Error>(None),
{
}

/// With a kernel image, whatever the kernel resolver answers when asked
/// for line information is an answer of the kernel image.
pub proof fn lemma_line_info_comes_from_image<K: SymResolver, E: SymResolver>(
    resolver: &KernelResolver<K, E>,
    addr: Addr,
    found: Result<Option<AddrLineInfo>, Error>,
)
    requires
        resolver.elf() is Some,
        answers_line_info(resolver, addr, found),
    ensures
        answers_line_info(&resolver.elf()->0, addr, found),
{
}

/// The kernel resolver gives no position in a file, for any address and
/// with any sources.
pub proof fn lemma_no_file_offset<K: SymResolver, E: SymResolver>(
    resolver: &KernelResolver<K, E>,
    addr: Addr,
    off: Option<u64>,
)
    requires
        call_ensures(KernelResolver::<K, E>::addr_file_off, (resolver, addr), off),
    ensures
        off is None,
{
}

/// A symbol that the table of kernel symbols reports at the address it
/// starts at is found through a kernel resolver that has this table and no
/// kernel image: if every answer of the table for `addr` holds the symbol
/// `name` at `addr`, so does every answer of the resolver.
pub proof fn lemma_table_symbol_is_found<'a, K: SymResolver, E: SymResolver>(
    resolver: &'a KernelResolver<K, E>,
    name: Seq<char>,
    addr: Addr,
    found: Result<Vec<(&'a str, Addr)>, Error>,
)
    requires
        resolver.ksym() is Some,
        resolver.elf() is None,
        forall|answer: Result<Vec<(&'a str, Addr)>, Error>|
            #[trigger] answers_syms(&resolver.ksym()->0, addr, answer) ==> finds(
                answer,
                name,
                addr,
            ),
        answers_syms(resolver, addr, found),
    ensures
        finds(found, name, addr),
{
    lemma_find_syms_prefers_table(resolver, addr, found);
}

} // verus!
