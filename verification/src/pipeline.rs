use vstd::prelude::*;
use vstd::pervasive::unreached;
use vstd::string::StringExecFns;

use crate::compile::CompileOpts;
use crate::error::CompileError;
use crate::link::{link_argv_spec, AsLink, Link, LinkOpts};
use crate::link_opt::{export_flags, ldflags_of, LinkOpt};
use crate::platform::Platform;
use crate::tempdir::{close_temp_dir, temp_dir_path, try_temp_dir};
use crate::views::seq_views;

verus! {

/// The multi-stage pipeline: an embedded link job whose output is fixed to
/// a file inside an owned, scoped temporary directory, to be handed to the
/// external native-code generator. The directory lives no longer than the
/// pipeline value; dropping or closing it removes its contents.
pub struct Lucetc {
    link: Link,
    tmpdir: tempfile::TempDir,
    tmp_path: String,
    wasm_file: String,
}

impl Lucetc {
    /// The embedded link job.
    pub closed spec fn link_view(&self) -> Link {
        self.link
    }

    /// The owned temporary directory.
    pub closed spec fn tmpdir_view(&self) -> tempfile::TempDir {
        self.tmpdir
    }

    /// Where the temporary directory was created.
    pub closed spec fn tmp_path_spec(&self) -> Seq<char> {
        self.tmp_path@
    }

    /// The fixed intermediate wasm path inside the temporary directory.
    pub closed spec fn wasm_file_spec(&self) -> Seq<char> {
        self.wasm_file@
    }

    /// The input paths, in link order.
    pub closed spec fn inputs_spec(&self) -> Seq<Seq<char>> {
        self.link.inputs_spec()
    }

    /// The accumulated compiler flags, in insertion order.
    pub closed spec fn cflags_spec(&self) -> Seq<Seq<char>> {
        self.link.cflags_spec()
    }

    /// The accumulated, already-translated linker flags, in insertion order.
    pub closed spec fn ldflags_spec(&self) -> Seq<Seq<char>> {
        self.link.ldflags_spec()
    }

    /// Whether captured subprocess streams are echoed to the driver's own
    /// standard streams.
    pub closed spec fn print_spec(&self) -> bool {
        self.link.print_spec()
    }

    /// The host platform whose linker-flag dialect the embedded job speaks.
    pub closed spec fn platform_spec(&self) -> Platform {
        self.link.platform_spec()
    }

    /// Well-formed: the intermediate wasm artifact is the fixed file
    /// `out.wasm` inside the pipeline's own temporary directory.
    pub closed spec fn wf(&self) -> bool {
        self.wasm_file@ == self.tmp_path@ + "/out.wasm"@
    }

    /// A fresh pipeline over the given inputs: an embedded link job exactly
    /// as [`Link::new`] builds it, plus an owned temporary directory holding
    /// the fixed intermediate wasm path. Fails only if the directory cannot
    /// be created.
    pub fn new(input: Vec<String>, platform: Platform) -> (r: Result<Lucetc, CompileError>)
        ensures
            r matches Ok(p) ==> ({
                &&& p.wf()
                &&& p.inputs_spec() == seq_views(input@)
                &&& p.cflags_spec() == Seq::<Seq<char>>::empty()
                &&& p.ldflags_spec() == ldflags_of(LinkOpt::DefaultOpts, platform)
                &&& !p.print_spec()
                &&& p.platform_spec() == platform
                &&& p.wasm_file_spec() == p.tmp_path_spec() + "/out.wasm"@
            }),
            r matches Err(e) ==> e matches CompileError::IO { .. },
    {
        let link = Link::new(input, platform);
        let tmpdir = match try_temp_dir() {
            Ok(dir) => dir,
            Err(e) => {
                return Err(e);
            },
        };
        let tmp_path = temp_dir_path(&tmpdir);
        let mut wasm_file = tmp_path.clone();
        wasm_file.append("/out.wasm");
        Ok(Lucetc { link, tmpdir, tmp_path, wasm_file })
    }

    /// Choose whether the link step's captured streams are echoed through
    /// to the driver's standard streams in addition to being captured.
    pub fn print_output(self, print: bool) -> (r: Lucetc)
        ensures
            r.print_spec() == print,
            r.wf() == self.wf(),
            r.inputs_spec() == self.inputs_spec(),
            r.cflags_spec() == self.cflags_spec(),
            r.ldflags_spec() == self.ldflags_spec(),
            r.platform_spec() == self.platform_spec(),
            r.tmp_path_spec() == self.tmp_path_spec(),
            r.wasm_file_spec() == self.wasm_file_spec(),
    {
        let Lucetc { link, tmpdir, tmp_path, wasm_file } = self;
        let link = link.with_print_output(print);
        Lucetc { link, tmpdir, tmp_path, wasm_file }
    }

    /// Whether the link step's captured subprocess streams will be echoed.
    pub fn prints(&self) -> (r: bool)
        ensures
            r == self.print_spec(),
    {
        self.link.prints()
    }

    /// The fixed intermediate wasm path inside the temporary directory.
    pub fn wasm_file(&self) -> (r: &String)
        ensures
            r@ == self.wasm_file_spec(),
    {
        &self.wasm_file
    }

    /// Check that the resolved clang and every input exist on disk, then
    /// assemble the argv of the pipeline's link step, which targets the
    /// intermediate wasm file. A missing path surfaces as a missing-file
    /// error carrying that path, and nothing is spawned for it.
    pub fn prepare(&self, clang: &str) -> (r: Result<Vec<String>, CompileError>)
        ensures
            r matches Ok(v) ==> seq_views(v@) == link_argv_spec(
                self.inputs_spec(),
                self.cflags_spec(),
                self.ldflags_spec(),
                self.wasm_file_spec(),
            ),
            r matches Err(e) ==> (e matches CompileError::FileNotFound(p) && (p@ == clang@
                || self.inputs_spec().contains(p@))),
    {
        self.link.prepare(clang, self.wasm_file.as_str())
    }

    /// Take the pipeline apart for the driver that runs its stages: the
    /// embedded link job, the owned temporary directory, and the
    /// intermediate wasm path.
    pub fn into_parts(self) -> (r: (Link, tempfile::TempDir, String))
        ensures
            r.0 == self.link_view(),
            r.1 == self.tmpdir_view(),
            r.2@ == self.wasm_file_spec(),
    {
        let Lucetc { link, tmpdir, tmp_path: _, wasm_file } = self;
        (link, tmpdir, wasm_file)
    }
}

/// Release the pipeline's temporary directory right away, removing its
/// contents; a filesystem failure during removal is the ambient I/O error.
pub fn close_workspace(dir: tempfile::TempDir) -> (r: Result<(), CompileError>)
    ensures
        r matches Err(e) ==> e matches CompileError::IO { .. },
{
    close_temp_dir(dir)
}

/// Decide the pipeline's final status from the outcome of each stage, in
/// stage order: a link failure surfaces unchanged; a code-generator failure
/// is wrapped opaquely as the code-generator error; then, and only then,
/// the cleanup outcome is the operation's final status. The earliest error
/// wins. A stage's outcome is present exactly when every stage before it
/// succeeded.
pub fn build_outcome(
    link_res: Result<(), CompileError>,
    codegen_res: Option<Result<(), String>>,
    cleanup_res: Option<Result<(), CompileError>>,
) -> (r: Result<(), CompileError>)
    requires
        codegen_res is Some <==> link_res is Ok,
        cleanup_res is Some <==> (codegen_res matches Some(c) && c is Ok),
    ensures
        link_res matches Err(e) ==> r == Err::<(), CompileError>(e),
        codegen_res matches Some(Err(m)) ==> (r matches Err(e) && e matches CompileError::Lucetc {
            msg,
        } && msg == m),
        cleanup_res matches Some(c) ==> r == c,
        r is Ok <==> (cleanup_res matches Some(c) && c is Ok),
{
    match link_res {
        Err(e) => Err(e),
        Ok(()) => match codegen_res {
            Some(Err(m)) => Err(CompileError::Lucetc { msg: m }),
            Some(Ok(())) => match cleanup_res {
                Some(c) => c,
                None => unreached(),
            },
            None => unreached(),
        },
    }
}

impl AsLink for Lucetc {
    fn as_link(&self) -> (r: &Link)
        ensures
            r == self.link_view(),
    {
        &self.link
    }
}

impl LinkOpts for Lucetc {
    fn link_opt(&mut self, opt: LinkOpt)
        ensures
            final(self).ldflags_spec() == old(self).ldflags_spec() + ldflags_of(
                opt,
                old(self).platform_spec(),
            ),
            final(self).inputs_spec() == old(self).inputs_spec(),
            final(self).cflags_spec() == old(self).cflags_spec(),
            final(self).print_spec() == old(self).print_spec(),
            final(self).platform_spec() == old(self).platform_spec(),
            final(self).wf() == old(self).wf(),
            final(self).tmp_path_spec() == old(self).tmp_path_spec(),
            final(self).wasm_file_spec() == old(self).wasm_file_spec(),
    {
        self.link.link_opt(opt);
    }

    fn with_link_opt(self, opt: LinkOpt) -> (r: Self)
        ensures
            r.ldflags_spec() == self.ldflags_spec() + ldflags_of(opt, self.platform_spec()),
            r.inputs_spec() == self.inputs_spec(),
            r.cflags_spec() == self.cflags_spec(),
            r.print_spec() == self.print_spec(),
            r.platform_spec() == self.platform_spec(),
            r.wf() == self.wf(),
            r.tmp_path_spec() == self.tmp_path_spec(),
            r.wasm_file_spec() == self.wasm_file_spec(),
    {
        let mut r = self;
        r.link_opt(opt);
        r
    }

    fn export(&mut self, symbol: &str)
        ensures
            final(self).ldflags_spec() == old(self).ldflags_spec() + export_flags(
                symbol@,
                old(self).platform_spec(),
            ),
            final(self).inputs_spec() == old(self).inputs_spec(),
            final(self).cflags_spec() == old(self).cflags_spec(),
            final(self).print_spec() == old(self).print_spec(),
            final(self).platform_spec() == old(self).platform_spec(),
            final(self).wf() == old(self).wf(),
            final(self).tmp_path_spec() == old(self).tmp_path_spec(),
            final(self).wasm_file_spec() == old(self).wasm_file_spec(),
    {
        self.link.export(symbol);
    }

    fn with_export(self, symbol: &str) -> (r: Self)
        ensures
            r.ldflags_spec() == self.ldflags_spec() + export_flags(symbol@, self.platform_spec()),
            r.inputs_spec() == self.inputs_spec(),
            r.cflags_spec() == self.cflags_spec(),
            r.print_spec() == self.print_spec(),
            r.platform_spec() == self.platform_spec(),
            r.wf() == self.wf(),
            r.tmp_path_spec() == self.tmp_path_spec(),
            r.wasm_file_spec() == self.wasm_file_spec(),
    {
        let mut r = self;
        r.export(symbol);
        r
    }
}

impl CompileOpts for Lucetc {
    fn cflag(&mut self, cflag: &str)
        ensures
            final(self).cflags_spec() == old(self).cflags_spec().push(cflag@),
            final(self).inputs_spec() == old(self).inputs_spec(),
            final(self).ldflags_spec() == old(self).ldflags_spec(),
            final(self).print_spec() == old(self).print_spec(),
            final(self).platform_spec() == old(self).platform_spec(),
            final(self).wf() == old(self).wf(),
            final(self).tmp_path_spec() == old(self).tmp_path_spec(),
            final(self).wasm_file_spec() == old(self).wasm_file_spec(),
    {
        self.link.cflag(cflag);
    }

    fn with_cflag(self, cflag: &str) -> (r: Self)
        ensures
            r.cflags_spec() == self.cflags_spec().push(cflag@),
            r.inputs_spec() == self.inputs_spec(),
            r.ldflags_spec() == self.ldflags_spec(),
            r.print_spec() == self.print_spec(),
            r.platform_spec() == self.platform_spec(),
            r.wf() == self.wf(),
            r.tmp_path_spec() == self.tmp_path_spec(),
            r.wasm_file_spec() == self.wasm_file_spec(),
    {
        let mut r = self;
        r.cflag(cflag);
        r
    }

    fn inc_dir(&mut self, dir: &str)
        ensures
            final(self).cflags_spec() == old(self).cflags_spec().push("-I"@ + dir@),
            final(self).inputs_spec() == old(self).inputs_spec(),
            final(self).ldflags_spec() == old(self).ldflags_spec(),
            final(self).print_spec() == old(self).print_spec(),
            final(self).platform_spec() == old(self).platform_spec(),
            final(self).wf() == old(self).wf(),
            final(self).tmp_path_spec() == old(self).tmp_path_spec(),
            final(self).wasm_file_spec() == old(self).wasm_file_spec(),
    {
        self.link.inc_dir(dir);
    }

    fn with_inc_dir(self, dir: &str) -> (r: Self)
        ensures
            r.cflags_spec() == self.cflags_spec().push("-I"@ + dir@),
            r.inputs_spec() == self.inputs_spec(),
            r.ldflags_spec() == self.ldflags_spec(),
            r.print_spec() == self.print_spec(),
            r.platform_spec() == self.platform_spec(),
            r.wf() == self.wf(),
            r.tmp_path_spec() == self.tmp_path_spec(),
            r.wasm_file_spec() == self.wasm_file_spec(),
    {
        let mut r = self;
        r.inc_dir(dir);
        r
    }
}

} // verus!
