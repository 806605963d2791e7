use vstd::prelude::*;
use vstd::std_specs::convert::FromSpecImpl;
use vstd::string::StringExecFns;

use crate::pid::pid_text;
use crate::pid::Pid;
use crate::text::write_str;

verus! {

/// A single ELF file.
#[derive(Clone, Debug)]
#[non_exhaustive]
pub struct Elf {
    /// The name of the ELF file: an executable or a shared object.
    pub path: String,
}

impl Elf {
    /// Create a new [`Elf`] object that refers to the file at `path`.
    /// Whether the file exists is found out when it is read.
    pub fn new(path: String) -> (elf: Self)
        ensures
            elf.path@ == path@,
    {
        Self { path }
    }
}

impl From<Elf> for Source<'static> {
    fn from(elf: Elf) -> (source: Self) {
        Source::Elf(elf)
    }
}

impl FromSpecImpl<Elf> for Source<'static> {
    open spec fn obeys_from_spec() -> bool {
        true
    }

    open spec fn from_spec(elf: Elf) -> Self {
        Source::Elf(elf)
    }
}

/// The characters of a path that may be absent.
pub open spec fn path_text(path: Option<String>) -> Option<Seq<char>> {
    match path {
        Some(path) => Some(path@),
        None => None,
    }
}

/// The Linux kernel: a copy of its symbol table and its binary image.
#[derive(Clone, Debug)]
#[non_exhaustive]
pub struct Kernel {
    /// The path of a copy of the kernel's symbol table. `None` stands for
    /// the table of the running kernel, `/proc/kallsyms`.
    pub kallsyms: Option<String>,
    /// The path of a kernel image. `None` stands for the image of the
    /// running kernel, wherever it can be found.
    pub kernel_image: Option<String>,
}

impl Default for Kernel {
    /// The running kernel: neither path is given.
    fn default() -> (kernel: Self)
        ensures
            kernel.kallsyms is None,
            kernel.kernel_image is None,
    {
        Self { kallsyms: None, kernel_image: None }
    }
}

/// Whether two paths that may be absent are the same.
fn same_path(left: &Option<String>, right: &Option<String>) -> (same: bool)
    ensures
        same == (path_text(*left) == path_text(*right)),
{
    match (left, right) {
        (None, None) => true,
        (Some(left), Some(right)) => *left == *right,
        _ => false,
    }
}

impl PartialEq for Kernel {
    fn eq(&self, other: &Kernel) -> (equal: bool) {
        same_path(&self.kallsyms, &other.kallsyms) && same_path(
            &self.kernel_image,
            &other.kernel_image,
        )
    }
}

impl vstd::std_specs::cmp::PartialEqSpecImpl for Kernel {
    open spec fn obeys_eq_spec() -> bool {
        true
    }

    open spec fn eq_spec(&self, other: &Kernel) -> bool {
        path_text(self.kallsyms) == path_text(other.kallsyms) && path_text(self.kernel_image)
            == path_text(other.kernel_image)
    }
}

impl From<Kernel> for Source<'static> {
    fn from(kernel: Kernel) -> (source: Self) {
        Source::Kernel(kernel)
    }
}

impl FromSpecImpl<Kernel> for Source<'static> {
    open spec fn obeys_from_spec() -> bool {
        true
    }

    open spec fn from_spec(kernel: Kernel) -> Self {
        Source::Kernel(kernel)
    }
}

/// The text that a [`Process`] for `pid` is shown as.
pub open spec fn process_text(pid: Pid) -> Seq<char> {
    "Process("@ + pid_text(pid) + ")"@
}

/// A process whose addresses are to be symbolized. The addresses are those
/// that are valid within the process.
#[derive(Clone)]
#[non_exhaustive]
pub struct Process {
    /// The identifier of the process.
    pub pid: Pid,
}

impl Process {
    /// Create a new [`Process`] object for the process `pid`.
    pub fn new(pid: Pid) -> (process: Self)
        ensures
            process.pid == pid,
    {
        Self { pid }
    }

    /// The text that this object is shown as: the word `Process` and, in
    /// round brackets, the identifier as [`Pid::to_string`] writes it.
    pub fn debug_string(&self) -> (text: String)
        ensures
            text@ == process_text(self.pid),
    {
        let mut text = String::from_str("Process(");
        let pid = self.pid.to_string();
        text.append(pid.as_str());
        text.append(")");
        text
    }
}

impl std::fmt::Debug for Process {
    /// Writes the text of [`Process::debug_string`].
    fn fmt(&self, f: &mut std::fmt::Formatter<'_>) -> std::fmt::Result {
        let text = self.debug_string();
        write_str(f, text.as_str())
    }
}

impl From<Process> for Source<'static> {
    fn from(process: Process) -> (source: Self) {
        Source::Process(process)
    }
}

impl FromSpecImpl<Process> for Source<'static> {
    open spec fn obeys_from_spec() -> bool {
        true
    }

    open spec fn from_spec(process: Process) -> Self {
        Source::Process(process)
    }
}

/// A symbol index in the Gsym format, in memory or in a file.
#[derive(Clone, Debug)]
pub enum Gsym<'dat> {
    /// "Raw" Gsym data.
    Data(GsymData<'dat>),
    /// A Gsym file.
    File(GsymFile),
}

/// Gsym data in memory.
#[derive(Clone, Debug)]
#[non_exhaustive]
pub struct GsymData<'dat> {
    /// The "raw" Gsym data.
    pub data: &'dat [u8],
}

impl<'dat> GsymData<'dat> {
    /// Create a new [`GsymData`] object that refers to `data`. The bytes are
    /// neither copied nor looked at.
    pub fn new(data: &'dat [u8]) -> (gsym: Self)
        ensures
            gsym.data@ == data@,
    {
        Self { data }
    }
}

impl<'dat> From<GsymData<'dat>> for Source<'dat> {
    fn from(gsym: GsymData<'dat>) -> (source: Self) {
        Source::Gsym(Gsym::Data(gsym))
    }
}

impl<'dat> FromSpecImpl<GsymData<'dat>> for Source<'dat> {
    open spec fn obeys_from_spec() -> bool {
        true
    }

    open spec fn from_spec(gsym: GsymData<'dat>) -> Self {
        Source::Gsym(Gsym::Data(gsym))
    }
}

/// A Gsym file.
#[derive(Clone, Debug)]
#[non_exhaustive]
pub struct GsymFile {
    /// The path to the Gsym file.
    pub path: String,
}

impl GsymFile {
    /// Create a new [`GsymFile`] object that refers to the file at `path`.
    /// Whether the file exists is found out when it is read.
    pub fn new(path: String) -> (gsym: Self)
        ensures
            gsym.path@ == path@,
    {
        Self { path }
    }
}

impl From<GsymFile> for Source<'static> {
    fn from(gsym: GsymFile) -> (source: Self) {
        Source::Gsym(Gsym::File(gsym))
    }
}

impl FromSpecImpl<GsymFile> for Source<'static> {
    open spec fn obeys_from_spec() -> bool {
        true
    }

    open spec fn from_spec(gsym: GsymFile) -> Self {
        Source::Gsym(Gsym::File(gsym))
    }
}

/// The description of a source of symbols and debug information: an ELF
/// file, the kernel, a process or a Gsym index. Every request names exactly
/// one of them.
#[derive(Clone, Debug)]
#[non_exhaustive]
pub enum Source<'dat> {
    /// A single ELF file.
    Elf(Elf),
    /// The Linux kernel.
    Kernel(Kernel),
    /// A process.
    Process(Process),
    /// A Gsym index.
    Gsym(Gsym<'dat>),
}

} // verus!
