use vstd::prelude::*;

use crate::error::Error;
use crate::error::ErrorKind;
use crate::kernel::KernelResolver;
use crate::kernel::NO_SOURCE;
use crate::resolver::answers_line_info;
use crate::resolver::answers_syms;
use crate::resolver::Addr;
use crate::resolver::SymResolver;
use crate::symbolize::source::Elf;
use crate::symbolize::source::Gsym;
use crate::symbolize::source::GsymData;
use crate::symbolize::source::GsymFile;
use crate::symbolize::source::Kernel;
use crate::symbolize::source::Process;
use crate::symbolize::source::Source;
use crate::symbolize::AddrLineInfo;

verus! {

/// What is known about one symbol that covers an address.
#[derive(Clone, Debug)]
#[non_exhaustive]
pub struct SymbolizedResult {
    /// The name of the symbol.
    pub symbol: String,
    /// The address at which the symbol starts. It may lie below the
    /// address that was asked for.
    pub addr: Addr,
    /// The source file that the address was compiled from, or the empty
    /// path if it is not known.
    pub path: String,
    /// The line in the file, counted from one, or zero if it is not known.
    pub line: usize,
    /// The column in the line, or zero if it is not known.
    pub column: usize,
}

/// A [`SymbolizedResult`] as contracts speak of it: with its texts as
/// sequences of characters.
pub struct SymbolizedResultView {
    pub symbol: Seq<char>,
    pub addr: Addr,
    pub path: Seq<char>,
    pub line: usize,
    pub column: usize,
}

impl View for SymbolizedResult {
    type V = SymbolizedResultView;

    open spec fn view(&self) -> SymbolizedResultView {
        SymbolizedResultView {
            symbol: self.symbol@,
            addr: self.addr,
            path: self.path@,
            line: self.line,
            column: self.column,
        }
    }
}

impl DeepView for SymbolizedResult {
    type V = SymbolizedResultView;

    open spec fn deep_view(&self) -> SymbolizedResultView {
        self@
    }
}

/// The collaborators that read symbol sources and build the resolver for
/// each. Building is where files and processes are read, so each operation
/// may fail; nothing is read again once a resolver is built.
pub trait Backends {
    /// The resolver for an ELF file.
    type Elf: SymResolver;

    /// The resolver for a table of kernel symbols.
    type KernelTable: SymResolver;

    /// The resolver for a kernel image.
    type KernelImage: SymResolver;

    /// The resolver for the addresses of a process.
    type Process: SymResolver;

    /// The resolver for a Gsym index.
    type Gsym: SymResolver;

    /// Build the resolver for the ELF file `elf`.
    fn elf(&self, elf: &Elf) -> Result<Self::Elf, Error>;

    /// Build the resolver for the table of kernel symbols that `kernel`
    /// names, or for the table at its usual place if it names none. `None`
    /// says that there is no table to be had, which is no failure.
    fn kernel_table(&self, kernel: &Kernel) -> Result<Option<Self::KernelTable>, Error>;

    /// Build the resolver for the kernel image that `kernel` names, or for
    /// the image of the running kernel if it names none. `None` says that
    /// there is no image to be had, which is no failure.
    fn kernel_image(&self, kernel: &Kernel) -> Result<Option<Self::KernelImage>, Error>;

    /// Build the resolver for the addresses of `process`.
    fn process(&self, process: &Process) -> Result<Self::Process, Error>;

    /// Build the resolver for the Gsym index in memory.
    fn gsym_data(&self, gsym: &GsymData<'_>) -> Result<Self::Gsym, Error>;

    /// Build the resolver for the Gsym index in a file.
    fn gsym_file(&self, gsym: &GsymFile) -> Result<Self::Gsym, Error>;
}

/// Symbolizes addresses against a [`Source`].
pub struct Symbolizer<B> {
    /// What reads the sources.
    pub backends: B,
}

/// The symbols of an answer, each with its name as a sequence of
/// characters and the address it starts at.
pub open spec fn sym_texts(syms: Seq<(&str, Addr)>) -> Seq<(Seq<char>, Addr)> {
    syms.map_values(|sym: (&str, Addr)| (sym.0@, sym.1))
}

/// The result for the symbol `sym`, a name and the address it starts at,
/// where `info` is the line information for the address that was asked
/// for. Without line information the path is empty, and line and column
/// are zero.
pub open spec fn located(sym: (Seq<char>, Addr), info: Option<AddrLineInfo>) -> SymbolizedResultView {
    match info {
        Some(info) => SymbolizedResultView {
            symbol: sym.0,
            addr: sym.1,
            path: info.path@,
            line: info.line,
            column: info.column,
        },
        None => SymbolizedResultView {
            symbol: sym.0,
            addr: sym.1,
            path: Seq::empty(),
            line: 0,
            column: 0,
        },
    }
}

/// The results for the symbols `syms`, in their order, each with the line
/// information `info`.
pub open spec fn located_all(syms: Seq<(Seq<char>, Addr)>, info: Option<AddrLineInfo>) -> Seq<
    SymbolizedResultView,
> {
    syms.map_values(|sym: (Seq<char>, Addr)| located(sym, info))
}

/// Whether line information is asked for after the answer `syms` to the
/// question for symbols: only if there is a symbol to attach it to.
pub open spec fn wants_line_info(syms: Result<Vec<(&str, Addr)>, Error>) -> bool {
    syms matches Ok(syms) && syms@.len() > 0
}

/// What becomes of the two answers of a resolver for one address: a
/// failure of either is handed on, no symbol gives no result, and each
/// symbol gives one result otherwise. Where [`wants_line_info`] does not
/// hold of `syms`, `info` plays no part.
pub open spec fn assembled(
    syms: Result<Vec<(&str, Addr)>, Error>,
    info: Result<Option<AddrLineInfo>, Error>,
) -> Result<Seq<SymbolizedResultView>, Error> {
    match syms {
        Err(err) => Err(err),
        Ok(syms) => if syms@.len() == 0 {
            Ok(Seq::empty())
        } else {
            match info {
                Err(err) => Err(err),
                Ok(info) => Ok(located_all(sym_texts(syms@), info)),
            }
        },
    }
}

/// Whether `outcome` is what symbolizing `addr` with `resolver` may give:
/// the resolver has an answer for the symbols at `addr` and, where it is
/// asked, one for the line information at `addr`, of which `outcome` is
/// [`assembled`].
pub open spec fn symbolizes<'a, R: SymResolver>(
    resolver: &'a R,
    addr: Addr,
    outcome: Result<Seq<SymbolizedResultView>, Error>,
) -> bool {
    exists|syms: Result<Vec<(&'a str, Addr)>, Error>, info: Result<Option<AddrLineInfo>, Error>|
        #![trigger assembled(syms, info)]
        {
            &&& answers_syms(resolver, addr, syms)
            &&& wants_line_info(syms) ==> answers_line_info(resolver, addr, info)
            &&& outcome == assembled(syms, info)
        }
}

/// Whether `done` holds, in order, results that symbolizing the first
/// addresses of `addrs` with `resolver` may give.
pub open spec fn symbolizes_all<R: SymResolver>(
    resolver: &R,
    addrs: Seq<Addr>,
    done: Seq<Seq<SymbolizedResultView>>,
) -> bool {
    &&& done.len() <= addrs.len()
    &&& forall|i: int| 0 <= i < done.len() ==> symbolizes(resolver, addrs[i], Ok(#[trigger] done[i]))
}

/// The results of a call as contracts speak of them.
pub open spec fn results_of(all: Result<Vec<Vec<SymbolizedResult>>, Error>) -> Result<
    Seq<Seq<SymbolizedResultView>>,
    Error,
> {
    match all {
        Ok(all) => Ok(all.deep_view()),
        Err(err) => Err(err),
    }
}

/// Whether `outcome` is what symbolizing the batch `addrs` with `resolver`
/// may give. A success holds one list of results for each address, in the
/// order of the addresses. A failure is that of the first address whose
/// symbolization fails.
pub open spec fn symbolizes_batch<R: SymResolver>(
    resolver: &R,
    addrs: Seq<Addr>,
    outcome: Result<Seq<Seq<SymbolizedResultView>>, Error>,
) -> bool {
    match outcome {
        Ok(all) => all.len() == addrs.len() && symbolizes_all(resolver, addrs, all),
        Err(err) => exists|done: Seq<Seq<SymbolizedResultView>>|
            #![trigger symbolizes_all(resolver, addrs, done)]
            {
                &&& done.len() < addrs.len()
                &&& symbolizes_all(resolver, addrs, done)
                &&& symbolizes(resolver, addrs[done.len() as int], Err(err))
            },
    }
}

/// Whether `outcome` is what symbolizing `addrs` may give once the
/// resolver for the source was asked for and `built` came back: the
/// failure to build it, or what the resolver gives.
pub open spec fn answers_with<R: SymResolver>(
    built: Result<R, Error>,
    addrs: Seq<Addr>,
    outcome: Result<Seq<Seq<SymbolizedResultView>>, Error>,
) -> bool {
    match built {
        Ok(resolver) => symbolizes_batch(&resolver, addrs, outcome),
        Err(err) => outcome == Err::<Seq<Seq<SymbolizedResultView>>, Error>(err),
    }
}

/// Whether `outcome` is what symbolizing kernel addresses may give once
/// the two sources of the kernel were asked for and `table` and `image`
/// came back. A failure to read either is handed on, that of the table
/// first. Either may be absent; with both absent the outcome is the
/// failure to make a [`KernelResolver`]. Otherwise it is what the kernel
/// resolver with these sources gives.
pub open spec fn kernel_answers_with<K: SymResolver, E: SymResolver>(
    table: Result<Option<K>, Error>,
    image: Result<Option<E>, Error>,
    addrs: Seq<Addr>,
    outcome: Result<Seq<Seq<SymbolizedResultView>>, Error>,
) -> bool {
    match table {
        Err(err) => outcome == Err::<Seq<Seq<SymbolizedResultView>>, Error>(err),
        Ok(table) => match image {
            Err(err) => outcome == Err::<Seq<Seq<SymbolizedResultView>>, Error>(err),
            Ok(image) => if table is None && image is None {
                outcome matches Err(err) && err.kind == ErrorKind::NotFound && err.message@
                    == NO_SOURCE@
            } else {
                symbolizes_batch(&KernelResolver::with(table, image), addrs, outcome)
            },
        },
    }
}

/// Whether `outcome` is what symbolizing `addrs` against the source `src`
/// may give, where `backends` reads the sources. Each kind of source has
/// its own resolver, built once for the call:
/// - an ELF file: the resolver that `backends` builds for the file;
/// - the kernel: the [`KernelResolver`] of the table and the image that
///   `backends` builds, the image being asked for only once the table has
///   not failed;
/// - a process: the resolver that `backends` builds for the process;
/// - Gsym data and a Gsym file: the resolver that `backends` builds for
///   the one that is given.
pub open spec fn dispatches<B: Backends>(
    backends: &B,
    src: &Source,
    addrs: Seq<Addr>,
    outcome: Result<Seq<Seq<SymbolizedResultView>>, Error>,
) -> bool {
    match *src {
        Source::Elf(elf) => exists|built: Result<B::Elf, Error>|
            #![trigger answers_with(built, addrs, outcome)]
            call_ensures(B::elf, (backends, &elf), built) && answers_with(built, addrs, outcome),
        Source::Kernel(kernel) => exists|
            table: Result<Option<B::KernelTable>, Error>,
            image: Result<Option<B::KernelImage>, Error>,
        |
            #![trigger kernel_answers_with(table, image, addrs, outcome)]
            {
                &&& call_ensures(B::kernel_table, (backends, &kernel), table)
                &&& table is Ok ==> call_ensures(B::kernel_image, (backends, &kernel), image)
                &&& kernel_answers_with(table, image, addrs, outcome)
            },
        Source::Process(process) => exists|built: Result<B::Process, Error>|
            #![trigger answers_with(built, addrs, outcome)]
            call_ensures(B::process, (backends, &process), built) && answers_with(
                built,
                addrs,
                outcome,
            ),
        Source::Gsym(Gsym::Data(data)) => exists|built: Result<B::Gsym, Error>|
            #![trigger answers_with(built, addrs, outcome)]
            call_ensures(B::gsym_data, (backends, &data), built) && answers_with(
                built,
                addrs,
                outcome,
            ),
        Source::Gsym(Gsym::File(file)) => exists|built: Result<B::Gsym, Error>|
            #![trigger answers_with(built, addrs, outcome)]
            call_ensures(B::gsym_file, (backends, &file), built) && answers_with(
                built,
                addrs,
                outcome,
            ),
    }
}

/// One result for each symbol in `syms`, in their order, each with the
/// line information `info`.
pub fn locate(syms: &Vec<(&str, Addr)>, info: &Option<AddrLineInfo>) -> (results: Vec<
    SymbolizedResult,
>)
    ensures
        results.deep_view() == located_all(sym_texts(syms@), *info),
{
    let mut results: Vec<SymbolizedResult> = Vec::new();
    let mut i: usize = 0;
    while i < syms.len()
        invariant
            i <= syms.len(),
            results.len() == i,
            forall|j: int|
                0 <= j < i ==> (#[trigger] results[j])@ == located((syms[j].0@, syms[j].1), *info),
        decreases syms.len() - i,
    {
        let (name, start) = syms[i];
        let result = match info {
            Some(info) => SymbolizedResult {
                symbol: name.to_owned(),
                addr: start,
                path: info.path.clone(),
                line: info.line,
                column: info.column,
            },
            None => SymbolizedResult {
                symbol: name.to_owned(),
                addr: start,
                path: String::new(),
                line: 0,
                column: 0,
            },
        };
        results.push(result);
        i += 1;
    }
    assert(results.deep_view() =~= located_all(sym_texts(syms@), *info));
    results
}

/// Symbolize one address: ask `resolver` for the symbols that cover `addr`
/// and, if there is any, for the line information of `addr`, and give one
/// result for each symbol. No symbol gives the empty list. A failure of the
/// resolver is handed on as it is.
pub fn symbolize_addr<R: SymResolver>(resolver: &R, addr: Addr) -> (results: Result<
    Vec<SymbolizedResult>,
    Error,
>)
    ensures
        symbolizes(
            resolver,
            addr,
            match results {
                Ok(results) => Ok(results.deep_view()),
                Err(err) => Err(err),
            },
        ),
{
    let found = resolver.find_syms(addr);
    let syms = match found {
        Ok(syms) => syms,
        Err(err) => {
            assert(assembled(found, Ok(None)) == Err::<Seq<SymbolizedResultView>, Error>(err));
            return Err(err);
        },
    };
    if syms.len() == 0 {
        let results: Vec<SymbolizedResult> = Vec::new();
        assert(results.deep_view() =~= Seq::empty());
        assert(assembled(found, Ok(None)) == Ok::<Seq<SymbolizedResultView>, Error>(
            results.deep_view(),
        ));
        return Ok(results);
    }
    let line = resolver.find_line_info(addr);
    match line {
        Ok(info) => {
            let results = locate(&syms, &info);
            assert(assembled(found, line) == Ok::<Seq<SymbolizedResultView>, Error>(
                results.deep_view(),
            ));
            Ok(results)
        },
        Err(err) => {
            assert(assembled(found, line) == Err::<Seq<SymbolizedResultView>, Error>(err));
            Err(err)
        },
    }
}

/// Symbolize a batch of addresses with one resolver: one list of results
/// for each address, in the order of the addresses, the empty list where
/// nothing covers an address. The first failure of the resolver ends the
/// call and is handed on as it is; no part of the results is given then.
pub fn symbolize_addrs<R: SymResolver>(resolver: &R, addrs: &[Addr]) -> (all: Result<
    Vec<Vec<SymbolizedResult>>,
    Error,
>)
    ensures
        symbolizes_batch(resolver, addrs@, results_of(all)),
        all matches Ok(lists) ==> lists.len() == addrs.len(),
{
    let mut all: Vec<Vec<SymbolizedResult>> = Vec::new();
    let mut i: usize = 0;
    while i < addrs.len()
        invariant
            i <= addrs.len(),
            all.len() == i,
            symbolizes_all(resolver, addrs@, all.deep_view()),
        decreases addrs.len() - i,
    {
        match symbolize_addr(resolver, addrs[i]) {
            Ok(results) => {
                let ghost before = all.deep_view();
                all.push(results);
                assert(all.deep_view() =~= before.push(results.deep_view()));
            },
            Err(err) => {
                assert(all.deep_view().len() == i);
                return Err(err);
            },
        }
        i += 1;
    }
    Ok(all)
}

impl<B: Backends> Symbolizer<B> {
    /// Create a symbolizer that reads its sources through `backends`.
    pub fn new(backends: B) -> (symbolizer: Self)
        ensures
            symbolizer.backends == backends,
    {
        Symbolizer { backends }
    }

    /// Symbolize a batch of addresses against the source `src`: one list
    /// of results for each address, in the order of the addresses, the
    /// empty list where nothing covers an address.
    ///
    /// The resolver for the source is built once, before the first
    /// address is looked at. A failure to build it, or of the resolver
    /// later, ends the call and is handed on as it is; no part of the
    /// results is given then.
    pub fn symbolize(&self, src: &Source, addrs: &[Addr]) -> (all: Result<
        Vec<Vec<SymbolizedResult>>,
        Error,
    >)
        ensures
            dispatches(&self.backends, src, addrs@, results_of(all)),
            all matches Ok(lists) ==> lists.len() == addrs.len(),
    {
        match src {
            Source::Elf(elf) => {
                let built = self.backends.elf(elf);
                let all = match built {
                    Ok(resolver) => symbolize_addrs(&resolver, addrs),
                    Err(err) => Err(err),
                };
                assert(answers_with(built, addrs@, results_of(all)));
                all
            },
            Source::Kernel(kernel) => {
                let table = self.backends.kernel_table(kernel);
                let ksym_resolver = match table {
                    Ok(ksym_resolver) => ksym_resolver,
                    Err(err) => {
                        assert(kernel_answers_with::<B::KernelTable, B::KernelImage>(
                            table,
                            Ok(None),
                            addrs@,
                            Err(err),
                        ));
                        return Err(err);
                    },
                };
                let image = self.backends.kernel_image(kernel);
                let elf_resolver = match image {
                    Ok(elf_resolver) => elf_resolver,
                    Err(err) => {
                        assert(kernel_answers_with(table, image, addrs@, Err(err)));
                        return Err(err);
                    },
                };
                let all = match KernelResolver::new(ksym_resolver, elf_resolver) {
                    Ok(resolver) => symbolize_addrs(&resolver, addrs),
                    Err(err) => Err(err),
                };
                assert(kernel_answers_with(table, image, addrs@, results_of(all)));
                all
            },
            Source::Process(process) => {
                let built = self.backends.process(process);
                let all = match built {
                    Ok(resolver) => symbolize_addrs(&resolver, addrs),
                    Err(err) => Err(err),
                };
                assert(answers_with(built, addrs@, results_of(all)));
                all
            },
            Source::Gsym(Gsym::Data(data)) => {
                let built = self.backends.gsym_data(data);
                let all = match built {
                    Ok(resolver) => symbolize_addrs(&resolver, addrs),
                    Err(err) => Err(err),
                };
                assert(answers_with(built, addrs@, results_of(all)));
                all
            },
            Source::Gsym(Gsym::File(file)) => {
                let built = self.backends.gsym_file(file);
                let all = match built {
                    Ok(resolver) => symbolize_addrs(&resolver, addrs),
                    Err(err) => Err(err),
                };
                assert(answers_with(built, addrs@, results_of(all)));
                all
            },
        }
    }
}

/// A batch that was symbolized with one resolver has as many lists of
/// results as there were addresses, whatever the resolver found, and each
/// list is what symbolizing the address at its place may give.
pub proof fn lemma_batch_keeps_length_and_order<R: SymResolver>(
    resolver: &R,
    addrs: Seq<Addr>,
    all: Seq<Seq<SymbolizedResultView>>,
    i: int,
)
    requires
        symbolizes_batch(resolver, addrs, Ok(all)),
        0 <= i < addrs.len(),
    ensures
        all.len() == addrs.len(),
        symbolizes(resolver, addrs[i], Ok(all[i])),
{
}

/// Symbolizing against a source gives as many lists of results as there
/// were addresses, for every kind of source and for the empty batch too.
pub proof fn lemma_symbolize_keeps_length<B: Backends>(
    backends: &B,
    src: &Source,
    addrs: Seq<Addr>,
    all: Seq<Seq<SymbolizedResultView>>,
)
    requires
        dispatches(backends, src, addrs, Ok(all)),
    ensures
        all.len() == addrs.len(),
{
}

/// Symbolizing kernel addresses fails whenever neither a table of kernel
/// symbols nor a kernel image is to be had, whatever the addresses are.
pub proof fn lemma_kernel_needs_a_source<K: SymResolver, E: SymResolver>(
    addrs: Seq<Addr>,
    outcome: Result<Seq<Seq<SymbolizedResultView>>, Error>,
)
    requires
        kernel_answers_with::<K, E>(Ok(None), Ok(None), addrs, outcome),
    ensures
        outcome matches Err(err) && err.kind == ErrorKind::NotFound,
{
}

} // verus!
