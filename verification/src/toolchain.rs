use vstd::prelude::*;
use vstd::string::StringExecFns;

verus! {

/// Resolve the SDK root: the override wins, else the fixed default.
/// The override is the value of the `WASI_SDK` environment variable,
/// looked up by the caller.
pub fn wasi_sdk(env_sdk: Option<&str>) -> (r: String)
    ensures
        env_sdk matches Some(s) ==> r@ == s@,
        env_sdk is None ==> r@ == "/opt/wasi-sdk"@,
{
    match env_sdk {
        Some(s) => String::from_str(s),
        None => String::from_str("/opt/wasi-sdk"),
    }
}

/// Resolve the sysroot: the override wins, else the fixed subpath of the
/// SDK root. The override is the value of the `WASI_SYSROOT` environment
/// variable, looked up by the caller.
pub fn wasi_sysroot(env_sysroot: Option<&str>, sdk: &str) -> (r: String)
    ensures
        env_sysroot matches Some(s) ==> r@ == s@,
        env_sysroot is None ==> r@ == sdk@ + "/share/sysroot"@,
{
    match env_sysroot {
        Some(s) => String::from_str(s),
        None => {
            let mut r = String::from_str(sdk);
            r.append("/share/sysroot");
            r
        },
    }
}

/// Resolve the clang executable: the override wins, else the fixed subpath
/// of the SDK root. The override is the value of the `CLANG` environment
/// variable, looked up by the caller. No existence check happens here;
/// existence is checked at invocation time so that configuration errors
/// surface with the full command context.
pub fn wasm_clang(env_clang: Option<&str>, sdk: &str) -> (r: String)
    ensures
        env_clang matches Some(s) ==> r@ == s@,
        env_clang is None ==> r@ == sdk@ + "/bin/clang"@,
{
    match env_clang {
        Some(s) => String::from_str(s),
        None => {
            let mut r = String::from_str(sdk);
            r.append("/bin/clang");
            r
        },
    }
}

/// Relies on std::path::Path::exists: asks the filesystem whether the path
/// exists right now. The answer depends on the disk, so nothing is promised
/// of it; callers state what holds for either answer.
#[verifier::external_body]
pub(crate) fn path_exists(p: &str) -> bool {
    std::path::Path::new(p).exists()
}

} // verus!
