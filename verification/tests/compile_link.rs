use lucet_wasi_sdk::{
    check_inputs, wasi_sdk, wasi_sysroot, wasm_clang, Compile, CompileError, CompileOpts, Link,
    LinkOpt, LinkOpts, Platform,
};

#[test]
fn compile_argv_fixed_order() {
    let compiler = Compile::new("a.c");
    let argv = compiler.argv("/sdk/share/sysroot", "a.o");
    assert_eq!(
        argv,
        vec![
            "--target=wasm32-unknown-wasi",
            "--sysroot=/sdk/share/sysroot",
            "-c",
            "a.c",
            "-o",
            "a.o",
        ]
    );
}

#[test]
fn compile_cflags_in_insertion_order() {
    let mut compiler = Compile::new("a.c");
    compiler.cflag("-O2");
    compiler.inc_dir("hdrs");
    let argv = compiler.argv("sys", "a.o");
    assert_eq!(&argv[6..], &["-O2".to_string(), "-Ihdrs".to_string()]);
}

#[test]
fn cflag_twice_kept_twice() {
    let one = Compile::new("a.c").with_cflag("-nostartfiles");
    let twice_stepwise = one.with_cflag("-nostartfiles");
    let argv = twice_stepwise.argv("sys", "a.o");
    assert_eq!(&argv[6..], &["-nostartfiles".to_string(), "-nostartfiles".to_string()]);

    let mut together = Compile::new("a.c");
    together.cflag("-nostartfiles");
    together.cflag("-nostartfiles");
    assert_eq!(together.argv("sys", "a.o"), argv);
}

#[test]
fn link_no_entry_elf() {
    let mut linker = Link::new(vec!["a.o".to_string()], Platform::Elf);
    linker.cflag("-nostartfiles");
    linker.link_opt(LinkOpt::NoDefaultEntryPoint);
    let argv = linker.argv("a.wasm");
    assert_eq!(
        argv,
        vec!["a.o", "-o", "a.wasm", "-nostartfiles", "-Wl,--no-threads", "-Wl,--no-entry"]
    );
}

#[test]
fn link_no_entry_macho_adds_no_wl_flag() {
    let mut linker = Link::new(vec!["a.o".to_string()], Platform::MachO);
    linker.cflag("-nostartfiles");
    linker.link_opt(LinkOpt::NoDefaultEntryPoint);
    let argv = linker.argv("a.wasm");
    assert_eq!(argv, vec!["a.o", "-o", "a.wasm", "-nostartfiles"]);
    assert!(argv.iter().all(|a| !a.starts_with("-Wl,")));
}

#[test]
fn link_allow_undefined_order() {
    let mut linker = Link::new(vec!["b.o".to_string()], Platform::Elf);
    linker.link_opt(LinkOpt::NoDefaultEntryPoint);
    linker.link_opt(LinkOpt::AllowUndefinedAll);
    let argv = linker.argv("b.wasm");
    assert_eq!(
        argv,
        vec!["b.o", "-o", "b.wasm", "-Wl,--no-threads", "-Wl,--no-entry", "-Wl,--allow-undefined"]
    );
}

#[test]
fn link_multiple_inputs_in_order() {
    let mut linker = Link::new(vec!["a.c".to_string(), "b.c".to_string()], Platform::Elf);
    linker.cflag("-nostartfiles");
    linker.link_opt(LinkOpt::NoDefaultEntryPoint);
    let argv = linker.argv("ab.wasm");
    assert_eq!(&argv[..3], &["a.c".to_string(), "b.c".to_string(), "-o".to_string()]);
    assert_eq!(argv[3], "ab.wasm");
}

#[test]
fn new_link_carries_default_opts_once() {
    let plain = Link::new(vec!["a.o".to_string()], Platform::Elf);
    assert_eq!(plain.argv("a.wasm"), vec!["a.o", "-o", "a.wasm", "-Wl,--no-threads"]);

    let explicit_again =
        Link::new(vec!["a.o".to_string()], Platform::Elf).with_link_opt(LinkOpt::DefaultOpts);
    assert_eq!(
        explicit_again.argv("a.wasm"),
        vec!["a.o", "-o", "a.wasm", "-Wl,--no-threads", "-Wl,--no-threads"]
    );
}

#[test]
fn intent_twice_kept_twice() {
    let mut linker = Link::new(vec!["a.o".to_string()], Platform::Elf);
    linker.link_opt(LinkOpt::NoDefaultEntryPoint);
    linker.link_opt(LinkOpt::NoDefaultEntryPoint);
    let argv = linker.argv("a.wasm");
    assert_eq!(
        &argv[3..],
        &[
            "-Wl,--no-threads".to_string(),
            "-Wl,--no-entry".to_string(),
            "-Wl,--no-entry".to_string(),
        ]
    );
}

#[test]
fn link_export_shortcut() {
    let mut linker = Link::new(vec!["a.o".to_string()], Platform::Elf);
    linker.export("run");
    let argv = linker.argv("a.wasm");
    assert_eq!(argv.last().unwrap(), "-Wl,--export=run");

    let with_form = Link::new(vec!["a.o".to_string()], Platform::MachO).with_export("run");
    assert_eq!(with_form.argv("a.wasm").last().unwrap(), "-Wl,-exported_symbol,run");
}

#[test]
fn toolchain_defaults() {
    let sdk = wasi_sdk(None);
    assert_eq!(sdk, "/opt/wasi-sdk");
    assert_eq!(wasi_sysroot(None, sdk.as_str()), "/opt/wasi-sdk/share/sysroot");
    assert_eq!(wasm_clang(None, sdk.as_str()), "/opt/wasi-sdk/bin/clang");
}

#[test]
fn toolchain_overrides_win() {
    let sdk = wasi_sdk(Some("/custom/sdk"));
    assert_eq!(sdk, "/custom/sdk");
    assert_eq!(wasi_sysroot(Some("/sys"), sdk.as_str()), "/sys");
    assert_eq!(wasi_sysroot(None, sdk.as_str()), "/custom/sdk/share/sysroot");
    assert_eq!(wasm_clang(Some("/bin/cc"), sdk.as_str()), "/bin/cc");
    assert_eq!(wasm_clang(None, sdk.as_str()), "/custom/sdk/bin/clang");
}

#[test]
fn check_ok_on_success() {
    let r = CompileError::check(true, "out".to_string(), "err".to_string(), false);
    assert!(r.is_ok());
}

#[test]
fn check_captures_streams_on_failure() {
    let r = CompileError::check(false, "captured out".to_string(), "captured err".to_string(), false);
    match r {
        Err(CompileError::Execution { stdout, stderr }) => {
            assert_eq!(stdout, "captured out");
            assert_eq!(stderr, "captured err");
        }
        other => panic!("expected an execution error, got {:?}", other),
    }
}

#[test]
fn missing_input_error() {
    let inputs = vec!["does_not_exist.o".to_string()];
    let exist = vec![false];
    let r = check_inputs("/opt/wasi-sdk/bin/clang", true, &inputs, &exist);
    assert_eq!(r, Err(CompileError::FileNotFound("does_not_exist.o".to_string())));
}

#[test]
fn missing_clang_reported_first() {
    let inputs = vec!["a.o".to_string(), "b.o".to_string()];
    let exist = vec![false, false];
    let r = check_inputs("/no/such/clang", false, &inputs, &exist);
    assert_eq!(r, Err(CompileError::FileNotFound("/no/such/clang".to_string())));
}

#[test]
fn first_missing_input_wins() {
    let inputs = vec!["a.o".to_string(), "b.o".to_string(), "c.o".to_string()];
    let exist = vec![true, false, false];
    let r = check_inputs("clang", true, &inputs, &exist);
    assert_eq!(r, Err(CompileError::FileNotFound("b.o".to_string())));

    let all_there = vec![true, true, true];
    assert_eq!(check_inputs("clang", true, &inputs, &all_there), Ok(()));
}

#[test]
fn compile_prepare_reports_missing_input() {
    let tmp = tempfile::TempDir::new().expect("create temporary directory");
    // A path that exists stands in for the tool; the input is absent.
    let tool = tmp.path().to_string_lossy().into_owned();
    let compiler = Compile::new("does_not_exist.c");
    let r = compiler.prepare(tool.as_str(), "sys", "a.o");
    assert_eq!(r, Err(CompileError::FileNotFound("does_not_exist.c".to_string())));
}

#[test]
fn compile_prepare_builds_argv_when_input_exists() {
    let tmp = tempfile::TempDir::new().expect("create temporary directory");
    let input = tempfile::NamedTempFile::new_in(tmp.path()).expect("create input file");
    let input_str = input.path().to_string_lossy().into_owned();
    let tool = tmp.path().to_string_lossy().into_owned();
    let compiler = Compile::new(input_str.as_str());
    let argv = compiler.prepare(tool.as_str(), "sys", "a.o").expect("argv assembled");
    assert_eq!(
        argv,
        vec![
            "--target=wasm32-unknown-wasi".to_string(),
            "--sysroot=sys".to_string(),
            "-c".to_string(),
            input_str,
            "-o".to_string(),
            "a.o".to_string(),
        ]
    );
}

#[test]
fn link_prepare_reports_missing_input() {
    let tmp = tempfile::TempDir::new().expect("create temporary directory");
    // A path that exists stands in for the tool; the input is absent.
    let clang_str = tmp.path().to_string_lossy().into_owned();
    let linker = Link::new(vec!["does_not_exist.o".to_string()], Platform::Elf);
    let r = linker.prepare(clang_str.as_str(), "a.wasm");
    assert_eq!(r, Err(CompileError::FileNotFound("does_not_exist.o".to_string())));
}

#[test]
fn link_prepare_builds_argv_when_inputs_exist() {
    let tmp = tempfile::TempDir::new().expect("create temporary directory");
    let input = tempfile::NamedTempFile::new_in(tmp.path()).expect("create input file");
    let input_str = input.path().to_string_lossy().into_owned();
    let tool = tmp.path().to_string_lossy().into_owned();
    let mut linker = Link::new(vec![input_str.clone()], Platform::Elf);
    linker.link_opt(LinkOpt::NoDefaultEntryPoint);
    let argv = linker.prepare(tool.as_str(), "a.wasm").expect("argv assembled");
    assert_eq!(
        argv,
        vec![
            input_str,
            "-o".to_string(),
            "a.wasm".to_string(),
            "-Wl,--no-threads".to_string(),
            "-Wl,--no-entry".to_string(),
        ]
    );
}
