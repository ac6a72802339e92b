use vstd::prelude::*;
use vstd::string::StringExecFns;

use crate::compile::CompileOpts;
use crate::error::CompileError;
use crate::link_opt::{export_flags, ldflags_of, LinkOpt};
use crate::platform::Platform;
use crate::toolchain::path_exists;
use crate::views::{lemma_seq_views_concat, lemma_seq_views_push, seq_views};

verus! {

/// A link job: one or more inputs (objects or C sources) turned into one
/// wasm artifact by the external clang driver. Link order is observable, so
/// inputs keep their given order; `ldflags` holds already-translated linker
/// flags, appended through the intent accumulators.
pub struct Link {
    input: Vec<String>,
    cflags: Vec<String>,
    ldflags: Vec<String>,
    print_output: bool,
    platform: Platform,
}

/// View of another link job, or of a larger job that embeds one.
pub trait AsLink {
    /// The embedded link job.
    fn as_link(&self) -> &Link;
}

/// The linker-intent accumulation capability: each intent is translated for
/// the job's host platform at the moment it is appended, and its flags
/// extend the job's ldflags in insertion order.
pub trait LinkOpts: Sized {
    /// Append the translation of one linker intent.
    fn link_opt(&mut self, opt: LinkOpt);

    /// Append the translation of one linker intent, by value.
    fn with_link_opt(self, opt: LinkOpt) -> Self;

    /// Append the translation of exporting one symbol.
    fn export(&mut self, symbol: &str);

    /// Append the translation of exporting one symbol, by value.
    fn with_export(self, symbol: &str) -> Self;
}

/// One linker flag as it crosses the clang driver: wrapped exactly once as
/// `-Wl,<flag>`. Wrapping is the link stage's responsibility, never the
/// translator's.
pub open spec fn wl_wrapped(flag: Seq<char>) -> Seq<char> {
    "-Wl,"@ + flag
}

/// The full argv handed to clang for a link job, after the executable path
/// itself: every input in link order, `-o` with the output, every cflag in
/// insertion order, then every ldflag wrapped as `-Wl,<flag>`, in insertion
/// order.
pub open spec fn link_argv_spec(
    inputs: Seq<Seq<char>>,
    cflags: Seq<Seq<char>>,
    ldflags: Seq<Seq<char>>,
    output: Seq<char>,
) -> Seq<Seq<char>> {
    inputs + seq!["-o"@, output] + cflags + ldflags.map_values(|f: Seq<char>| wl_wrapped(f))
}

impl Link {
    /// The input paths, in link order.
    pub closed spec fn inputs_spec(&self) -> Seq<Seq<char>> {
        seq_views(self.input@)
    }

    /// The accumulated compiler flags, in insertion order.
    pub closed spec fn cflags_spec(&self) -> Seq<Seq<char>> {
        seq_views(self.cflags@)
    }

    /// The accumulated, already-translated linker flags, in insertion order.
    pub closed spec fn ldflags_spec(&self) -> Seq<Seq<char>> {
        seq_views(self.ldflags@)
    }

    /// Whether captured subprocess streams are echoed to the driver's own
    /// standard streams.
    pub closed spec fn print_spec(&self) -> bool {
        self.print_output
    }

    /// The host platform whose linker-flag dialect this job speaks.
    pub closed spec fn platform_spec(&self) -> Platform {
        self.platform
    }

    /// A fresh link job for the given inputs: no cflags, no echoing, and the
    /// default-options intent already translated and appended, so that
    /// platform-specific default workarounds apply without caller action.
    pub fn new(input: Vec<String>, platform: Platform) -> (r: Link)
        ensures
            r.inputs_spec() == seq_views(input@),
            r.cflags_spec() == Seq::<Seq<char>>::empty(),
            r.ldflags_spec() == ldflags_of(LinkOpt::DefaultOpts, platform),
            !r.print_spec(),
            r.platform_spec() == platform,
    {
        let l = Link {
            input,
            cflags: Vec::new(),
            ldflags: Vec::new(),
            print_output: false,
            platform,
        };
        proof {
            assert(l.cflags_spec() =~= Seq::<Seq<char>>::empty());
            assert(l.ldflags_spec() =~= Seq::<Seq<char>>::empty());
        }
        let r = l.with_link_opt(LinkOpt::DefaultOpts);
        proof {
            assert(Seq::<Seq<char>>::empty() + ldflags_of(LinkOpt::DefaultOpts, platform)
                =~= ldflags_of(LinkOpt::DefaultOpts, platform));
        }
        r
    }

    /// Choose whether subprocess streams are echoed through to the driver's
    /// standard streams in addition to being captured.
    pub fn print_output(&mut self, print: bool)
        ensures
            final(self).print_spec() == print,
            final(self).inputs_spec() == old(self).inputs_spec(),
            final(self).cflags_spec() == old(self).cflags_spec(),
            final(self).ldflags_spec() == old(self).ldflags_spec(),
            final(self).platform_spec() == old(self).platform_spec(),
    {
        self.print_output = print;
    }

    /// Whether captured subprocess streams will be echoed.
    pub fn prints(&self) -> (r: bool)
        ensures
            r == self.print_spec(),
    {
        self.print_output
    }

    /// Choose stream echoing, by value.
    pub fn with_print_output(self, print: bool) -> (r: Link)
        ensures
            r.print_spec() == print,
            r.inputs_spec() == self.inputs_spec(),
            r.cflags_spec() == self.cflags_spec(),
            r.ldflags_spec() == self.ldflags_spec(),
            r.platform_spec() == self.platform_spec(),
    {
        let mut r = self;
        r.print_output(print);
        r
    }

    /// Assemble the clang argv for this job, in the fixed order the
    /// subprocess contract states.
    pub fn argv(&self, output: &str) -> (r: Vec<String>)
        ensures
            seq_views(r@) == link_argv_spec(
                self.inputs_spec(),
                self.cflags_spec(),
                self.ldflags_spec(),
                output@,
            ),
    {
        let ghost goal = link_argv_spec(
            self.inputs_spec(),
            self.cflags_spec(),
            self.ldflags_spec(),
            output@,
        );
        let ghost n = self.inputs_spec().len() as int;
        let ghost c = self.cflags_spec().len() as int;
        let mut r: Vec<String> = Vec::new();
        let mut i: usize = 0;
        proof {
            assert(seq_views(r@) =~= goal.subrange(0, 0));
        }
        while i < self.input.len()
            invariant
                i <= self.input.len(),
                n == self.inputs_spec().len(),
                goal == link_argv_spec(
                    self.inputs_spec(),
                    self.cflags_spec(),
                    self.ldflags_spec(),
                    output@,
                ),
                seq_views(r@) == goal.subrange(0, i as int),
            decreases self.input.len() - i,
        {
            let ghost prev = r@;
            r.push(self.input[i].clone());
            proof {
                lemma_seq_views_push(prev, r@.last());
                assert(seq_views(r@) =~= goal.subrange(0, i as int + 1));
            }
            i += 1;
        }
        let ghost prev = r@;
        r.push(String::from_str("-o"));
        proof {
            lemma_seq_views_push(prev, r@.last());
            assert(seq_views(r@) =~= goal.subrange(0, n + 1));
        }
        let ghost prev = r@;
        r.push(String::from_str(output));
        proof {
            lemma_seq_views_push(prev, r@.last());
            assert(seq_views(r@) =~= goal.subrange(0, n + 2));
        }
        let mut j: usize = 0;
        while j < self.cflags.len()
            invariant
                j <= self.cflags.len(),
                n == self.inputs_spec().len(),
                c == self.cflags_spec().len(),
                goal == link_argv_spec(
                    self.inputs_spec(),
                    self.cflags_spec(),
                    self.ldflags_spec(),
                    output@,
                ),
                seq_views(r@) == goal.subrange(0, n + 2 + j as int),
            decreases self.cflags.len() - j,
        {
            let ghost prev = r@;
            r.push(self.cflags[j].clone());
            proof {
                lemma_seq_views_push(prev, r@.last());
                assert(seq_views(r@) =~= goal.subrange(0, n + 2 + j as int + 1));
            }
            j += 1;
        }
        let mut k: usize = 0;
        while k < self.ldflags.len()
            invariant
                k <= self.ldflags.len(),
                n == self.inputs_spec().len(),
                c == self.cflags_spec().len(),
                goal == link_argv_spec(
                    self.inputs_spec(),
                    self.cflags_spec(),
                    self.ldflags_spec(),
                    output@,
                ),
                seq_views(r@) == goal.subrange(0, n + 2 + c + k as int),
            decreases self.ldflags.len() - k,
        {
            let mut wrapped = String::from_str("-Wl,");
            wrapped.append(self.ldflags[k].as_str());
            let ghost prev = r@;
            r.push(wrapped);
            proof {
                lemma_seq_views_push(prev, r@.last());
                assert(goal[n + 2 + c + k as int] == wl_wrapped(self.ldflags_spec()[k as int]));
                assert(seq_views(r@) =~= goal.subrange(0, n + 2 + c + k as int + 1));
            }
            k += 1;
        }
        proof {
            assert(seq_views(r@) =~= goal);
        }
        r
    }

    /// Check that the resolved clang and every input exist on disk, then
    /// assemble the argv. A missing path surfaces as a missing-file error
    /// carrying that path, and nothing is spawned for it.
    pub fn prepare(&self, clang: &str, output: &str) -> (r: Result<Vec<String>, CompileError>)
        ensures
            r matches Ok(v) ==> seq_views(v@) == link_argv_spec(
                self.inputs_spec(),
                self.cflags_spec(),
                self.ldflags_spec(),
                output@,
            ),
            r matches Err(e) ==> (e matches CompileError::FileNotFound(p) && (p@ == clang@
                || self.inputs_spec().contains(p@))),
    {
        if !path_exists(clang) {
            return Err(CompileError::FileNotFound(String::from_str(clang)));
        }
        let mut i: usize = 0;
        while i < self.input.len()
            invariant
                i <= self.input.len(),
            decreases self.input.len() - i,
        {
            if !path_exists(self.input[i].as_str()) {
                let missing = self.input[i].clone();
                proof {
                    assert(self.inputs_spec()[i as int] == missing@);
                    assert(self.inputs_spec().contains(missing@));
                }
                return Err(CompileError::FileNotFound(missing));
            }
            i += 1;
        }
        Ok(self.argv(output))
    }
}

/// Decide, from the recorded existence of the tool and of every input,
/// whether a link may be spawned: the tool path is checked first, then each
/// input in link order, and the first missing path is the error. Exactly
/// when everything exists, the decision is to go ahead.
pub fn check_inputs(
    clang: &str,
    clang_exists: bool,
    inputs: &Vec<String>,
    inputs_exist: &Vec<bool>,
) -> (r: Result<(), CompileError>)
    requires
        inputs_exist@.len() == inputs@.len(),
    ensures
        r is Ok <==> (clang_exists && (forall|i: int|
            0 <= i < inputs_exist@.len() ==> inputs_exist@[i])),
        !clang_exists ==> (r matches Err(CompileError::FileNotFound(p)) && p@ == clang@),
        (clang_exists && !(forall|i: int| 0 <= i < inputs_exist@.len() ==> inputs_exist@[i])) ==> (
        r matches Err(CompileError::FileNotFound(p)) && (exists|i: int|
            0 <= i < inputs_exist@.len() && !inputs_exist@[i] && p@ == seq_views(inputs@)[i] && (
            forall|j: int| 0 <= j < i ==> inputs_exist@[j]))),
{
    if !clang_exists {
        return Err(CompileError::FileNotFound(String::from_str(clang)));
    }
    let mut i: usize = 0;
    while i < inputs.len()
        invariant
            clang_exists,
            inputs_exist@.len() == inputs@.len(),
            i <= inputs@.len(),
            forall|j: int| 0 <= j < i ==> inputs_exist@[j],
        decreases inputs@.len() - i,
    {
        if !inputs_exist[i] {
            let missing = inputs[i].clone();
            proof {
                let wi = i as int;
                assert(0 <= wi < inputs_exist@.len() && !inputs_exist@[wi] && missing@
                    == seq_views(inputs@)[wi] && (forall|j: int| 0 <= j < wi ==> inputs_exist@[j]));
            }
            return Err(CompileError::FileNotFound(missing));
        }
        i += 1;
    }
    Ok(())
}

impl AsLink for Link {
    fn as_link(&self) -> (r: &Link)
        ensures
            r == self,
    {
        self
    }
}

impl LinkOpts for Link {
    fn link_opt(&mut self, opt: LinkOpt)
        ensures
            final(self).ldflags_spec() == old(self).ldflags_spec() + ldflags_of(
                opt,
                old(self).platform_spec(),
            ),
            final(self).inputs_spec() == old(self).inputs_spec(),
            final(self).cflags_spec() == old(self).cflags_spec(),
            final(self).print_spec() == old(self).print_spec(),
            final(self).platform_spec() == old(self).platform_spec(),
    {
        let mut flags = opt.as_ldflags(self.platform);
        let ghost prev = self.ldflags@;
        let ghost added = flags@;
        self.ldflags.append(&mut flags);
        proof {
            lemma_seq_views_concat(prev, added);
        }
    }

    fn with_link_opt(self, opt: LinkOpt) -> (r: Self)
        ensures
            r.ldflags_spec() == self.ldflags_spec() + ldflags_of(opt, self.platform_spec()),
            r.inputs_spec() == self.inputs_spec(),
            r.cflags_spec() == self.cflags_spec(),
            r.print_spec() == self.print_spec(),
            r.platform_spec() == self.platform_spec(),
    {
        let mut r = self;
        r.link_opt(opt);
        r
    }

    fn export(&mut self, symbol: &str)
        ensures
            final(self).ldflags_spec() == old(self).ldflags_spec() + export_flags(
                symbol@,
                old(self).platform_spec(),
            ),
            final(self).inputs_spec() == old(self).inputs_spec(),
            final(self).cflags_spec() == old(self).cflags_spec(),
            final(self).print_spec() == old(self).print_spec(),
            final(self).platform_spec() == old(self).platform_spec(),
    {
        self.link_opt(LinkOpt::Export(String::from_str(symbol)));
    }

    fn with_export(self, symbol: &str) -> (r: Self)
        ensures
            r.ldflags_spec() == self.ldflags_spec() + export_flags(
                symbol@,
                self.platform_spec(),
            ),
            r.inputs_spec() == self.inputs_spec(),
            r.cflags_spec() == self.cflags_spec(),
            r.print_spec() == self.print_spec(),
            r.platform_spec() == self.platform_spec(),
    {
        let mut r = self;
        r.export(symbol);
        r
    }
}

impl CompileOpts for Link {
    fn cflag(&mut self, cflag: &str)
        ensures
            final(self).cflags_spec() == old(self).cflags_spec().push(cflag@),
            final(self).inputs_spec() == old(self).inputs_spec(),
            final(self).ldflags_spec() == old(self).ldflags_spec(),
            final(self).print_spec() == old(self).print_spec(),
            final(self).platform_spec() == old(self).platform_spec(),
    {
        self.cflags.push(String::from_str(cflag));
        proof {
            lemma_seq_views_push(old(self).cflags@, final(self).cflags@.last());
        }
    }

    fn with_cflag(self, cflag: &str) -> (r: Self)
        ensures
            r.cflags_spec() == self.cflags_spec().push(cflag@),
            r.inputs_spec() == self.inputs_spec(),
            r.ldflags_spec() == self.ldflags_spec(),
            r.print_spec() == self.print_spec(),
            r.platform_spec() == self.platform_spec(),
    {
        let mut r = self;
        r.cflag(cflag);
        r
    }

    fn inc_dir(&mut self, dir: &str)
        ensures
            final(self).cflags_spec() == old(self).cflags_spec().push("-I"@ + dir@),
            final(self).inputs_spec() == old(self).inputs_spec(),
            final(self).ldflags_spec() == old(self).ldflags_spec(),
            final(self).print_spec() == old(self).print_spec(),
            final(self).platform_spec() == old(self).platform_spec(),
    {
        let mut flag = String::from_str("-I");
        flag.append(dir);
        self.cflags.push(flag);
        proof {
            lemma_seq_views_push(old(self).cflags@, final(self).cflags@.last());
        }
    }

    fn with_inc_dir(self, dir: &str) -> (r: Self)
        ensures
            r.cflags_spec() == self.cflags_spec().push("-I"@ + dir@),
            r.inputs_spec() == self.inputs_spec(),
            r.ldflags_spec() == self.ldflags_spec(),
            r.print_spec() == self.print_spec(),
            r.platform_spec() == self.platform_spec(),
    {
        let mut r = self;
        r.inc_dir(dir);
        r
    }
}

/// Every accumulated ldflag appears in the final argv wrapped exactly once
/// as `-Wl,<flag>`, in insertion order, after all inputs, the output pair
/// and all cflags; nothing else follows them.
pub proof fn lemma_ldflags_wrapped_once(
    inputs: Seq<Seq<char>>,
    cflags: Seq<Seq<char>>,
    ldflags: Seq<Seq<char>>,
    output: Seq<char>,
)
    ensures
        ({
            let a = link_argv_spec(inputs, cflags, ldflags, output);
            let base = inputs.len() + 2 + cflags.len();
            a.len() == base + ldflags.len() && (forall|i: int|
                0 <= i < ldflags.len() ==> a[base + i] == wl_wrapped(ldflags[i]))
        }),
{
}

/// The default-options translation that the constructor injects stays at
/// the front of the linker flags through every later append: accumulators
/// only ever extend the sequence at its end.
pub proof fn lemma_default_prefix_kept(
    ldflags: Seq<Seq<char>>,
    added: Seq<Seq<char>>,
    p: Platform,
)
    requires
        ldflags_of(LinkOpt::DefaultOpts, p).is_prefix_of(ldflags),
    ensures
        ldflags_of(LinkOpt::DefaultOpts, p).is_prefix_of(ldflags + added),
{
    let d = ldflags_of(LinkOpt::DefaultOpts, p);
    assert(d =~= (ldflags + added).subrange(0, d.len() as int));
}

/// Appending the same intent's translation twice accumulates both batches
/// in full, one after the other, exactly as two separate single appends
/// would: nothing is deduplicated or reordered.
pub proof fn lemma_intent_twice_no_dedup(ldflags: Seq<Seq<char>>, added: Seq<Seq<char>>)
    ensures
        ({
            let twice = ldflags + added + added;
            twice.len() == ldflags.len() + 2 * added.len() && (forall|i: int|
                0 <= i < added.len() ==> twice[ldflags.len() + i] == added[i]
                    && twice[ldflags.len() + added.len() + i] == added[i])
        }),
{
}

/// A link job constructed with no explicit intents carries exactly the
/// flags of the default-options intent, translated once: constructing it is
/// equivalent to appending `DefaultOpts` exactly once to a job with no
/// linker flags at all.
pub proof fn lemma_new_link_default_once(p: Platform)
    ensures
        Seq::<Seq<char>>::empty() + ldflags_of(LinkOpt::DefaultOpts, p) == ldflags_of(
            LinkOpt::DefaultOpts,
            p,
        ),
{
    assert(Seq::<Seq<char>>::empty() + ldflags_of(LinkOpt::DefaultOpts, p) =~= ldflags_of(
        LinkOpt::DefaultOpts,
        p,
    ));
}

} // verus!
