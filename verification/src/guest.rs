use vstd::prelude::*;
use vstd::string::StringExecFns;

use crate::error::CompileError;
use crate::tempdir::{temp_dir_path, try_temp_dir};
use crate::views::{lemma_seq_views_empty, lemma_seq_views_push, seq_views};

verus! {

/// The fixed C stub written beside the generated header: it pulls the
/// header in and prints a greeting.
pub open spec fn main_c_text() -> Seq<char> {
    "\n#include <stdio.h>\n#include \"idl.h\"\n\nint main(int argc, char* argv[]) {\n    printf(\"hello, world from c guest\");\n}"@
}

/// A guest demo build: a workspace directory that exists for the lifetime
/// of the build, into which a generated header and a fixed C stub are
/// written before clang and the native-code generator run over them.
pub struct CGuestApp {
    work: tempfile::TempDir,
    dir: String,
}

impl CGuestApp {
    /// Where the workspace directory was created.
    pub closed spec fn dir_spec(&self) -> Seq<char> {
        self.dir@
    }

    /// A fresh guest demo build over its own workspace directory. Fails
    /// only if the directory cannot be created.
    pub fn new() -> (r: Result<CGuestApp, CompileError>)
        ensures
            r matches Err(e) ==> e matches CompileError::IO { .. },
    {
        let work = match try_temp_dir() {
            Ok(dir) => dir,
            Err(e) => {
                return Err(e);
            },
        };
        let dir = temp_dir_path(&work);
        Ok(CGuestApp { work, dir })
    }

    /// The workspace directory, as recorded at creation.
    pub fn workspace_dir(&self) -> (r: &String)
        ensures
            r@ == self.dir_spec(),
    {
        &self.dir
    }

    /// Where a source file of the given name lives in the workspace.
    pub fn source_path(&self, name: &str) -> (r: String)
        ensures
            r@ == self.dir_spec() + "/"@ + name@,
    {
        let mut r = self.dir.clone();
        r.append("/");
        r.append(name);
        r
    }

    /// Where an output file of the given name lives in the workspace.
    pub fn output_path(&self, name: &str) -> (r: String)
        ensures
            r@ == self.dir_spec() + "/"@ + name@,
    {
        self.source_path(name)
    }

    /// The contents of the fixed C stub, exactly.
    pub fn main_c_source(&self) -> (r: String)
        ensures
            r@ == main_c_text(),
    {
        String::from_str(
            "\n#include <stdio.h>\n#include \"idl.h\"\n\nint main(int argc, char* argv[]) {\n    printf(\"hello, world from c guest\");\n}",
        )
    }

    /// The argv handed to clang for the guest build, after the executable
    /// path itself: the C standard, the stub source, a header-search path
    /// pointing at the workspace, and `-o` with the wasm output inside the
    /// workspace.
    pub fn clang_argv(&self) -> (r: Vec<String>)
        ensures
            seq_views(r@) == seq![
                "--std=c99"@,
                self.dir_spec() + "/"@ + "main.c"@,
                "-I"@,
                self.dir_spec() + "/"@,
                "-o"@,
                self.dir_spec() + "/"@ + "out.wasm"@,
            ],
    {
        let mut r: Vec<String> = Vec::new();
        proof {
            lemma_seq_views_empty();
        }
        let ghost stages: Seq<Seq<char>> = seq![
            "--std=c99"@,
            self.dir_spec() + "/"@ + "main.c"@,
            "-I"@,
            self.dir_spec() + "/"@,
            "-o"@,
            self.dir_spec() + "/"@ + "out.wasm"@,
        ];
        let ghost snap0 = r@;
        r.push(String::from_str("--std=c99"));
        proof {
            lemma_seq_views_push(snap0, r@.last());
        }
        let ghost snap1 = r@;
        r.push(self.source_path("main.c"));
        proof {
            lemma_seq_views_push(snap1, r@.last());
        }
        let ghost snap2 = r@;
        r.push(String::from_str("-I"));
        proof {
            lemma_seq_views_push(snap2, r@.last());
        }
        let ghost snap3 = r@;
        r.push(self.source_path(""));
        proof {
            lemma_seq_views_push(snap3, r@.last());
            reveal_strlit("");
            assert(r@.last()@ == self.dir_spec() + "/"@ + ""@);
            assert((self.dir_spec() + "/"@) + ""@ =~= self.dir_spec() + "/"@);
        }
        let ghost snap4 = r@;
        r.push(String::from_str("-o"));
        proof {
            lemma_seq_views_push(snap4, r@.last());
        }
        let ghost snap5 = r@;
        r.push(self.output_path("out.wasm"));
        proof {
            lemma_seq_views_push(snap5, r@.last());
            assert(seq_views(r@) =~= stages);
        }
        r
    }

    /// Where the guest build's shared object lands in the workspace.
    pub fn so_path(&self) -> (r: String)
        ensures
            r@ == self.dir_spec() + "/"@ + "out.so"@,
    {
        self.output_path("out.so")
    }
}

} // verus!
