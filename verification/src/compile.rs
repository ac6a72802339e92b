use vstd::prelude::*;
use vstd::string::StringExecFns;

use crate::error::CompileError;
use crate::toolchain::path_exists;
use crate::views::{lemma_seq_views_push, seq_views};

verus! {

/// The compile-flag accumulation capability: opaque compiler flags and
/// include paths, kept in insertion order with no deduplication and no
/// normalization. Later flags may override earlier ones at the tool level,
/// so order is observable.
pub trait CompileOpts: Sized {
    /// Append one compiler flag.
    fn cflag(&mut self, cflag: &str);

    /// Append one compiler flag, by value.
    fn with_cflag(self, cflag: &str) -> Self;

    /// Append a header-search path as the single flag `-I<path>`.
    fn inc_dir(&mut self, dir: &str);

    /// Append a header-search path, by value.
    fn with_inc_dir(self, dir: &str) -> Self;
}

/// A compile job: one C input turned into one object file by the external
/// WASI-targeted clang. Immutable except through the additive accumulators.
pub struct Compile {
    input: String,
    cflags: Vec<String>,
    print_output: bool,
}

/// The full argv handed to clang for a compile job, after the executable
/// path itself: the fixed target triple, the resolved sysroot, `-c`, the
/// input, `-o` with the output, then every accumulated cflag in insertion
/// order.
pub open spec fn compile_argv_spec(
    input: Seq<char>,
    cflags: Seq<Seq<char>>,
    sysroot: Seq<char>,
    output: Seq<char>,
) -> Seq<Seq<char>> {
    seq![
        "--target=wasm32-unknown-wasi"@,
        "--sysroot="@ + sysroot,
        "-c"@,
        input,
        "-o"@,
        output,
    ] + cflags
}

impl Compile {
    /// The input path, as its character sequence.
    pub closed spec fn input_spec(&self) -> Seq<char> {
        self.input@
    }

    /// The accumulated compiler flags, in insertion order.
    pub closed spec fn cflags_spec(&self) -> Seq<Seq<char>> {
        seq_views(self.cflags@)
    }

    /// Whether captured subprocess streams are echoed to the driver's own
    /// standard streams.
    pub closed spec fn print_spec(&self) -> bool {
        self.print_output
    }

    /// A fresh compile job for one input: no flags, no echoing.
    pub fn new(input: &str) -> (r: Compile)
        ensures
            r.input_spec() == input@,
            r.cflags_spec() == Seq::<Seq<char>>::empty(),
            !r.print_spec(),
    {
        let r = Compile { input: String::from_str(input), cflags: Vec::new(), print_output: false };
        proof {
            assert(r.cflags_spec() =~= Seq::<Seq<char>>::empty());
        }
        r
    }

    /// Choose whether subprocess streams are echoed through to the driver's
    /// standard streams in addition to being captured.
    pub fn print_output(&mut self, print: bool)
        ensures
            final(self).print_spec() == print,
            final(self).input_spec() == old(self).input_spec(),
            final(self).cflags_spec() == old(self).cflags_spec(),
    {
        self.print_output = print;
    }

    /// Whether captured subprocess streams will be echoed.
    pub fn prints(&self) -> (r: bool)
        ensures
            r == self.print_spec(),
    {
        self.print_output
    }

    /// Choose stream echoing, by value.
    pub fn with_print_output(self, print: bool) -> (r: Compile)
        ensures
            r.print_spec() == print,
            r.input_spec() == self.input_spec(),
            r.cflags_spec() == self.cflags_spec(),
    {
        let mut r = self;
        r.print_output(print);
        r
    }

    /// Assemble the clang argv for this job, in the fixed order the
    /// subprocess contract states.
    pub fn argv(&self, sysroot: &str, output: &str) -> (r: Vec<String>)
        ensures
            seq_views(r@) == compile_argv_spec(
                self.input_spec(),
                self.cflags_spec(),
                sysroot@,
                output@,
            ),
    {
        let ghost goal = compile_argv_spec(self.input_spec(), self.cflags_spec(), sysroot@, output@);
        let mut r: Vec<String> = Vec::new();
        r.push(String::from_str("--target=wasm32-unknown-wasi"));
        let mut sysroot_flag = String::from_str("--sysroot=");
        sysroot_flag.append(sysroot);
        r.push(sysroot_flag);
        r.push(String::from_str("-c"));
        r.push(self.input.clone());
        r.push(String::from_str("-o"));
        r.push(String::from_str(output));
        proof {
            assert(seq_views(r@) =~= goal.subrange(0, 6));
        }
        let mut i: usize = 0;
        while i < self.cflags.len()
            invariant
                i <= self.cflags.len(),
                goal == compile_argv_spec(
                    self.input_spec(),
                    self.cflags_spec(),
                    sysroot@,
                    output@,
                ),
                seq_views(r@) == goal.subrange(0, 6 + i as int),
            decreases self.cflags.len() - i,
        {
            let ghost prev = r@;
            r.push(self.cflags[i].clone());
            proof {
                lemma_seq_views_push(prev, r@.last());
                assert(seq_views(r@) =~= goal.subrange(0, 6 + i as int + 1));
            }
            i += 1;
        }
        proof {
            assert(seq_views(r@) =~= goal);
        }
        r
    }

    /// Check that the resolved clang and the input both exist on disk, then
    /// assemble the argv. A missing path surfaces as a missing-file error
    /// carrying that path, and nothing is spawned for it.
    pub fn prepare(&self, clang: &str, sysroot: &str, output: &str) -> (r: Result<
        Vec<String>,
        CompileError,
    >)
        ensures
            r matches Ok(v) ==> seq_views(v@) == compile_argv_spec(
                self.input_spec(),
                self.cflags_spec(),
                sysroot@,
                output@,
            ),
            r matches Err(e) ==> (e matches CompileError::FileNotFound(p) && (p@ == clang@ || p@
                == self.input_spec())),
    {
        if !path_exists(clang) {
            return Err(CompileError::FileNotFound(String::from_str(clang)));
        }
        if !path_exists(self.input.as_str()) {
            return Err(CompileError::FileNotFound(self.input.clone()));
        }
        Ok(self.argv(sysroot, output))
    }
}

impl CompileOpts for Compile {
    fn cflag(&mut self, cflag: &str)
        ensures
            final(self).cflags_spec() == old(self).cflags_spec().push(cflag@),
            final(self).input_spec() == old(self).input_spec(),
            final(self).print_spec() == old(self).print_spec(),
    {
        self.cflags.push(String::from_str(cflag));
        proof {
            lemma_seq_views_push(old(self).cflags@, final(self).cflags@.last());
        }
    }

    fn with_cflag(self, cflag: &str) -> (r: Self)
        ensures
            r.cflags_spec() == self.cflags_spec().push(cflag@),
            r.input_spec() == self.input_spec(),
            r.print_spec() == self.print_spec(),
    {
        let mut r = self;
        r.cflag(cflag);
        r
    }

    fn inc_dir(&mut self, dir: &str)
        ensures
            final(self).cflags_spec() == old(self).cflags_spec().push("-I"@ + dir@),
            final(self).input_spec() == old(self).input_spec(),
            final(self).print_spec() == old(self).print_spec(),
    {
        let mut flag = String::from_str("-I");
        flag.append(dir);
        self.cflags.push(flag);
        proof {
            lemma_seq_views_push(old(self).cflags@, final(self).cflags@.last());
        }
    }

    fn with_inc_dir(self, dir: &str) -> (r: Self)
        ensures
            r.cflags_spec() == self.cflags_spec().push("-I"@ + dir@),
            r.input_spec() == self.input_spec(),
            r.print_spec() == self.print_spec(),
    {
        let mut r = self;
        r.inc_dir(dir);
        r
    }
}

/// The compile argv begins with the target flag, then the sysroot flag,
/// then `-c`, all before the input path appears; the output follows `-o`,
/// and the accumulated cflags close the argv in insertion order.
pub proof fn lemma_compile_argv_order(
    input: Seq<char>,
    cflags: Seq<Seq<char>>,
    sysroot: Seq<char>,
    output: Seq<char>,
)
    ensures
        ({
            let a = compile_argv_spec(input, cflags, sysroot, output);
            a.len() == 6 + cflags.len() && a[0] == "--target=wasm32-unknown-wasi"@ && a[1]
                == "--sysroot="@ + sysroot && a[2] == "-c"@ && a[3] == input && a[4] == "-o"@
                && a[5] == output && (forall|i: int|
                0 <= i < cflags.len() ==> a[6 + i] == cflags[i])
        }),
{
}

/// Appending the same cflag twice accumulates it at two successive argv
/// positions, exactly as two separate single appends would: nothing is
/// deduplicated or reordered.
pub proof fn lemma_cflag_twice_no_dedup(
    input: Seq<char>,
    cflags: Seq<Seq<char>>,
    sysroot: Seq<char>,
    output: Seq<char>,
    flag: Seq<char>,
)
    ensures
        ({
            let a = compile_argv_spec(input, cflags.push(flag).push(flag), sysroot, output);
            a.len() == 8 + cflags.len() && a[6 + cflags.len() as int] == flag && a[7 + cflags.len() as int]
                == flag
        }),
{
}

} // verus!
