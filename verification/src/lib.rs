mod compile;
mod error;
mod guest;
mod link;
mod link_opt;
mod pipeline;
mod platform;
mod tempdir;
mod toolchain;
mod views;

pub use compile::Compile;
pub use compile::CompileOpts;
pub use compile::compile_argv_spec;
pub use compile::lemma_cflag_twice_no_dedup;
pub use compile::lemma_compile_argv_order;
pub use error::CompileError;
pub use guest::CGuestApp;
pub use guest::main_c_text;
pub use link::AsLink;
pub use link::Link;
pub use link::LinkOpts;
pub use link::check_inputs;
pub use link::lemma_default_prefix_kept;
pub use link::lemma_intent_twice_no_dedup;
pub use link::lemma_ldflags_wrapped_once;
pub use link::lemma_new_link_default_once;
pub use link::link_argv_spec;
pub use link::wl_wrapped;
pub use link_opt::LinkOpt;
pub use link_opt::allow_undefined_flags;
pub use link_opt::export_flags;
pub use link_opt::ldflags_of;
pub use link_opt::lemma_default_opts_table;
pub use pipeline::Lucetc;
pub use pipeline::build_outcome;
pub use pipeline::close_workspace;
pub use platform::Platform;
pub use toolchain::wasi_sdk;
pub use toolchain::wasi_sysroot;
pub use toolchain::wasm_clang;
pub use views::seq_views;
