use lucet_wasi_sdk::{
    build_outcome, close_workspace, CompileError, CompileOpts, LinkOpt, LinkOpts, Lucetc, Platform,
};
use std::path::Path;

#[test]
fn pipeline_targets_out_wasm_in_its_directory() {
    let pipeline = Lucetc::new(vec!["a.c".to_string()], Platform::Elf).expect("pipeline created");
    let wasm = pipeline.wasm_file().clone();
    assert!(wasm.ends_with("/out.wasm"));
    let dir = &wasm[..wasm.len() - "/out.wasm".len()];
    assert!(Path::new(dir).exists(), "workspace directory exists while the pipeline lives");
}

#[test]
fn pipeline_cleanup_removes_directory() {
    let pipeline = Lucetc::new(vec!["a.c".to_string()], Platform::Elf).expect("pipeline created");
    let (_link, tmpdir, wasm) = pipeline.into_parts();
    let dir = wasm[..wasm.len() - "/out.wasm".len()].to_string();
    assert!(Path::new(dir.as_str()).exists());
    close_workspace(tmpdir).expect("workspace removed");
    assert!(!Path::new(wasm.as_str()).exists(), "intermediate wasm is gone");
    assert!(!Path::new(dir.as_str()).exists(), "workspace directory is gone");
}

#[test]
fn pipeline_drop_removes_directory() {
    let pipeline = Lucetc::new(vec!["a.c".to_string()], Platform::Elf).expect("pipeline created");
    let dir = {
        let wasm = pipeline.wasm_file();
        wasm[..wasm.len() - "/out.wasm".len()].to_string()
    };
    assert!(Path::new(dir.as_str()).exists());
    drop(pipeline);
    assert!(!Path::new(dir.as_str()).exists(), "directory released on every exit path");
}

#[test]
fn pipeline_forwards_flags_to_link_step() {
    let tmp = tempfile::TempDir::new().expect("create temporary directory");
    let input = tempfile::NamedTempFile::new_in(tmp.path()).expect("create input file");
    let input_str = input.path().to_string_lossy().into_owned();
    let tool = tmp.path().to_string_lossy().into_owned();

    let mut pipeline =
        Lucetc::new(vec![input_str.clone()], Platform::Elf).expect("pipeline created");
    pipeline.cflag("-nostartfiles");
    pipeline.link_opt(LinkOpt::NoDefaultEntryPoint);
    let wasm = pipeline.wasm_file().clone();
    let argv = pipeline.prepare(tool.as_str()).expect("argv assembled");
    assert_eq!(
        argv,
        vec![
            input_str,
            "-o".to_string(),
            wasm,
            "-nostartfiles".to_string(),
            "-Wl,--no-threads".to_string(),
            "-Wl,--no-entry".to_string(),
        ]
    );
}

#[test]
fn pipeline_prepare_reports_missing_input() {
    let tmp = tempfile::TempDir::new().expect("create temporary directory");
    let tool = tmp.path().to_string_lossy().into_owned();
    let pipeline =
        Lucetc::new(vec!["does_not_exist.o".to_string()], Platform::Elf).expect("pipeline created");
    let r = pipeline.prepare(tool.as_str());
    assert_eq!(r, Err(CompileError::FileNotFound("does_not_exist.o".to_string())));
}

#[test]
fn build_outcome_link_error_wins() {
    let link_err = CompileError::FileNotFound("a.o".to_string());
    let r = build_outcome(Err(link_err.clone()), None, None);
    assert_eq!(r, Err(link_err));
}

#[test]
fn build_outcome_wraps_codegen_error() {
    let r = build_outcome(Ok(()), Some(Err("no code generator".to_string())), None);
    assert_eq!(r, Err(CompileError::Lucetc { msg: "no code generator".to_string() }));
}

#[test]
fn build_outcome_cleanup_is_final_status() {
    let r = build_outcome(Ok(()), Some(Ok(())), Some(Ok(())));
    assert_eq!(r, Ok(()));

    let cleanup_err = CompileError::IO { msg: "directory busy".to_string() };
    let r = build_outcome(Ok(()), Some(Ok(())), Some(Err(cleanup_err.clone())));
    assert_eq!(r, Err(cleanup_err));
}
