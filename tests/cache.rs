use capsule_core::paths::{file_name, file_stem, parent};
use std::path::Path;
use capsule_core::compiler::{
    generate_wasm_filename, is_python_source, is_script_source, is_stale, javascript_bootloader,
    python_bootloader, skips_directory, JavascriptWasmCompiler, PythonWasmCompiler,
    PythonWasmCompilerError,
};

#[test]
fn test_generate_wasm_filename_basic() {
    let path = "/project/main.ts";
    let filename = generate_wasm_filename(path);
    assert!(filename.starts_with("main_"));
    assert!(filename.ends_with(".wasm"));
    assert_eq!(filename.len(), "main_".len() + 8 + ".wasm".len());
}

#[test]
fn test_generate_wasm_filename_deterministic() {
    let path = "/project/main.ts";
    let a = generate_wasm_filename(path);
    let b = generate_wasm_filename(path);
    assert_eq!(a, b);
}

#[test]
fn test_generate_wasm_filename_different_dirs() {
    let a = generate_wasm_filename("/project/src/main.ts");
    let b = generate_wasm_filename("/project/tasks/main.ts");
    assert_ne!(a, b);
    assert!(a.starts_with("main_"));
    assert!(b.starts_with("main_"));
}

#[test]
fn test_generate_wasm_filename_different_files() {
    let a = generate_wasm_filename("/project/main.ts");
    let b = generate_wasm_filename("/project/other.ts");
    assert_ne!(a, b);
    assert!(a.starts_with("main_"));
    assert!(b.starts_with("other_"));
}

#[test]
fn wasm_filename_hash_segment() {
    let path = "/project/main.ts";
    let name = generate_wasm_filename(path);
    let full = blake3::hash(path.as_bytes()).to_hex().to_string();
    assert_eq!(name, format!("main_{}.wasm", &full[..8]));
    assert!(name[5..13].chars().all(|c| c.is_ascii_hexdigit() && !c.is_ascii_uppercase()));
}

#[test]
fn wasm_filename_without_stem() {
    let name = generate_wasm_filename("/");
    assert!(name.starts_with("capsule_"));
    assert!(name.ends_with(".wasm"));
}

#[test]
fn staleness_rules() {
    assert!(is_stale(None, 1, &vec![]));
    assert!(is_stale(Some(10), 11, &vec![]));
    assert!(!is_stale(Some(10), 10, &vec![3, 10]));
    assert!(is_stale(Some(10), 5, &vec![3, 11]));
}

#[test]
fn second_compile_is_not_stale() {
    // an artifact written after every source is kept on the next compile
    let sources = vec![100u128, 150, 120];
    let built_at = 200u128;
    assert!(!is_stale(Some(built_at), 180, &sources));
    assert!(!is_stale(Some(built_at), 180, &sources));
}

#[test]
fn sibling_filters() {
    assert!(is_python_source("/p/util.py"));
    assert!(!is_python_source("/p/.py"));
    assert!(!is_python_source("/p/util.pyc"));
    assert!(is_script_source("/p/a.ts"));
    assert!(is_script_source("/p/a.mjs"));
    assert!(is_script_source("/p/a.js"));
    assert!(!is_script_source("/p/a.tsx"));
    assert!(skips_directory(".git"));
    assert!(skips_directory("node_modules"));
    assert!(!skips_directory("src"));
}

#[test]
fn compiler_paths() {
    let c = PythonWasmCompiler::new("/work/proj/hello.py").ok().unwrap();
    assert_eq!(c.cache_dir, "/work/proj/.capsule");
    assert_eq!(c.output_wasm, "/work/proj/.capsule/capsule.wasm");
    assert_eq!(c.module_name().ok().unwrap(), "hello");
    assert_eq!(c.bootloader_path(), "/work/proj/.capsule/_capsule_boot.py");
    assert!(matches!(PythonWasmCompiler::new("/"), Err(PythonWasmCompilerError::FsError(_))));

    let j = JavascriptWasmCompiler::new("/a/main.ts").ok().unwrap();
    assert!(j.needs_transpile());
    assert_eq!(j.transpiled_path("main"), "/a/.capsule/main.js");
    assert_eq!(j.bootloader_path(), "/a/.capsule/_capsule_boot.js");
    assert_eq!(JavascriptWasmCompiler::normalize_path_for_command("\\\\?\\C:\\x"), "C:\\x");
    assert_eq!(JavascriptWasmCompiler::normalize_path_for_command("/x/y"), "/x/y");
}

#[test]
fn bootloaders_import_the_module() {
    let py = python_bootloader("hello");
    assert!(py.contains("\nimport hello\n"));
    assert!(py.ends_with("from capsule.app import TaskRunner, exports\n"));
    let js = javascript_bootloader("main", "/sdk");
    assert!(js.contains("import './main.js';"));
    assert!(js.contains("from '/sdk/capsule/app.js';"));
}

#[test]
fn file_names_follow_std_paths() {
    for p in ["/project/main.ts", "/project/main.ts/", "/project/..", "/project/.", "/", "", ".", "a/./", "main", "/a/.hidden", "/a/b.tar.gz", "a.", "/a"] {
        let std_path = Path::new(p);
        let want_name = std_path.file_name().map(|s| s.to_string_lossy().into_owned());
        let want_stem = std_path.file_stem().map(|s| s.to_string_lossy().into_owned());
        let want_parent = std_path.parent().map(|s| s.to_string_lossy().into_owned());
        assert_eq!(file_name(p), want_name, "file name of {p:?}");
        assert_eq!(file_stem(p), want_stem, "file stem of {p:?}");
        assert_eq!(parent(p), want_parent, "parent of {p:?}");
    }
}

#[test]
fn wasm_filename_falls_back_without_stem() {
    assert!(generate_wasm_filename("/project/..").starts_with("capsule_"));
    assert!(generate_wasm_filename("/project/main.py/").starts_with("main_"));
}
