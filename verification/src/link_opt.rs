use vstd::prelude::*;
use vstd::string::StringExecFns;

use crate::platform::Platform;
use crate::views::{lemma_seq_views_empty, lemma_seq_views_push, seq_views};

verus! {

/// A high-level, host-independent description of a linker behaviour.
/// Each variant maps, per host platform, to a (possibly empty) ordered
/// sequence of concrete flag strings; see [`ldflags_of`].
#[derive(Clone, Debug)]
pub enum LinkOpt {
    /// Allow references to one undefined symbol that will be resolved later
    /// by the dynamic linker.
    AllowUndefined(String),
    /// Allow references to any undefined symbol. They will be resolved later
    /// by the dynamic linker.
    AllowUndefinedAll,
    /// Default options, possibly enabling workarounds for temporary bugs.
    DefaultOpts,
    /// Export a symbol.
    Export(String),
    /// Preserve all the symbols during LTO, even if they are not used.
    ExportAll,
    /// Do not assume that the library has a predefined entry point.
    NoDefaultEntryPoint,
    /// Create a shared library.
    Shared,
    /// Do not put debug information in the output file.
    StripDebug,
    /// Remove functions and data that are unreachable by the entry point or
    /// exported symbols.
    StripUnused,
}

/// The flags that tolerate one named undefined symbol.
pub open spec fn allow_undefined_flags(symbol: Seq<char>, p: Platform) -> Seq<Seq<char>> {
    match p {
        Platform::MachO => Seq::<Seq<char>>::empty(),
        Platform::Elf => seq!["-U,_"@ + symbol],
    }
}

/// The flags that export one named symbol.
pub open spec fn export_flags(symbol: Seq<char>, p: Platform) -> Seq<Seq<char>> {
    match p {
        Platform::MachO => seq!["-exported_symbol,"@ + symbol],
        Platform::Elf => seq!["--export="@ + symbol],
    }
}

/// The translation table: what one intent means, per host platform, as an
/// ordered sequence of linker-flag strings. Translation is total: every
/// intent has an entry on every platform, possibly the empty sequence.
pub open spec fn ldflags_of(opt: LinkOpt, p: Platform) -> Seq<Seq<char>> {
    match opt {
        LinkOpt::AllowUndefined(s) => allow_undefined_flags(s@, p),
        LinkOpt::AllowUndefinedAll => match p {
            Platform::MachO => seq!["-undefined,dynamic_lookup"@],
            Platform::Elf => seq!["--allow-undefined"@],
        },
        LinkOpt::DefaultOpts => match p {
            Platform::MachO => Seq::<Seq<char>>::empty(),
            Platform::Elf => seq!["--no-threads"@],
        },
        LinkOpt::Export(s) => export_flags(s@, p),
        LinkOpt::ExportAll => match p {
            Platform::MachO => seq!["-export_dynamic"@],
            Platform::Elf => seq!["--export-all"@],
        },
        LinkOpt::NoDefaultEntryPoint => match p {
            Platform::MachO => Seq::<Seq<char>>::empty(),
            Platform::Elf => seq!["--no-entry"@],
        },
        LinkOpt::Shared => match p {
            Platform::MachO => seq!["-dylib"@],
            Platform::Elf => seq!["--shared"@],
        },
        LinkOpt::StripDebug => seq!["-S"@],
        LinkOpt::StripUnused => match p {
            Platform::MachO => seq!["-dead_strip"@],
            Platform::Elf => seq!["--strip-discarded"@],
        },
    }
}

/// An empty flag list.
fn no_flags() -> (r: Vec<String>)
    ensures
        seq_views(r@) == Seq::<Seq<char>>::empty(),
{
    proof {
        lemma_seq_views_empty();
    }
    Vec::new()
}

/// A flag list holding exactly the given literal.
fn literal_flag(flag: &str) -> (r: Vec<String>)
    ensures
        seq_views(r@) == seq![flag@],
{
    let mut r: Vec<String> = Vec::new();
    r.push(String::from_str(flag));
    proof {
        lemma_seq_views_empty();
        lemma_seq_views_push(Seq::<String>::empty(), r@[0]);
        assert(seq_views(r@) =~= seq![flag@]);
    }
    r
}

/// A flag list holding exactly the given prefix with the symbol appended.
fn prefixed_flag(prefix: &str, symbol: &str) -> (r: Vec<String>)
    ensures
        seq_views(r@) == seq![prefix@ + symbol@],
{
    let mut flag = String::from_str(prefix);
    flag.append(symbol);
    let mut r: Vec<String> = Vec::new();
    r.push(flag);
    proof {
        lemma_seq_views_empty();
        lemma_seq_views_push(Seq::<String>::empty(), r@[0]);
        assert(seq_views(r@) =~= seq![prefix@ + symbol@]);
    }
    r
}

impl LinkOpt {
    /// Translate this intent into the concrete flags for the given host
    /// platform, exactly as the translation table states.
    pub fn as_ldflags(&self, p: Platform) -> (r: Vec<String>)
        ensures
            seq_views(r@) == ldflags_of(*self, p),
    {
        match self {
            LinkOpt::AllowUndefined(symbol) => match p {
                Platform::MachO => no_flags(),
                Platform::Elf => prefixed_flag("-U,_", symbol.as_str()),
            },
            LinkOpt::AllowUndefinedAll => match p {
                Platform::MachO => literal_flag("-undefined,dynamic_lookup"),
                Platform::Elf => literal_flag("--allow-undefined"),
            },
            LinkOpt::DefaultOpts => match p {
                Platform::MachO => no_flags(),
                Platform::Elf => literal_flag("--no-threads"),
            },
            LinkOpt::Export(symbol) => match p {
                Platform::MachO => prefixed_flag("-exported_symbol,", symbol.as_str()),
                Platform::Elf => prefixed_flag("--export=", symbol.as_str()),
            },
            LinkOpt::ExportAll => match p {
                Platform::MachO => literal_flag("-export_dynamic"),
                Platform::Elf => literal_flag("--export-all"),
            },
            LinkOpt::NoDefaultEntryPoint => match p {
                Platform::MachO => no_flags(),
                Platform::Elf => literal_flag("--no-entry"),
            },
            LinkOpt::Shared => match p {
                Platform::MachO => literal_flag("-dylib"),
                Platform::Elf => literal_flag("--shared"),
            },
            LinkOpt::StripDebug => literal_flag("-S"),
            LinkOpt::StripUnused => match p {
                Platform::MachO => literal_flag("-dead_strip"),
                Platform::Elf => literal_flag("--strip-discarded"),
            },
        }
    }
}

/// On every host platform the translation of every intent is a finite
/// sequence; for the default-options intent it is empty on Mach-O hosts and
/// exactly the single flag `--no-threads` on ELF hosts.
pub proof fn lemma_default_opts_table()
    ensures
        ldflags_of(LinkOpt::DefaultOpts, Platform::MachO) == Seq::<Seq<char>>::empty(),
        ldflags_of(LinkOpt::DefaultOpts, Platform::Elf) == seq!["--no-threads"@],
        ldflags_of(LinkOpt::DefaultOpts, Platform::Elf).len() == 1,
{
}

} // verus!
