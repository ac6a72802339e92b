use lucet_wasi_sdk::CGuestApp;
use std::path::Path;

#[test]
fn guest_workspace_paths() {
    let app = CGuestApp::new().expect("workspace created");
    let dir = app.workspace_dir().clone();
    assert!(Path::new(dir.as_str()).exists());
    assert_eq!(app.source_path("main.c"), format!("{}/main.c", dir));
    assert_eq!(app.output_path("out.wasm"), format!("{}/out.wasm", dir));
    assert_eq!(app.so_path(), format!("{}/out.so", dir));
}

#[test]
fn guest_main_c_source_is_the_fixed_stub() {
    let app = CGuestApp::new().expect("workspace created");
    let source = app.main_c_source();
    assert!(source.contains("\"idl.h\""));
    assert!(source.contains("hello, world from c guest"));
    assert!(source.contains("int main(int argc, char* argv[])"));
}

#[test]
fn guest_clang_argv_shape() {
    let app = CGuestApp::new().expect("workspace created");
    let dir = app.workspace_dir().clone();
    assert_eq!(
        app.clang_argv(),
        vec![
            "--std=c99".to_string(),
            format!("{}/main.c", dir),
            "-I".to_string(),
            format!("{}/", dir),
            "-o".to_string(),
            format!("{}/out.wasm", dir),
        ]
    );
}
