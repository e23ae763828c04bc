use cap_std::ambient_authority;
use cap_std::fs::{Dir, OpenOptions};

use wasm_bridge::context::StdioHandles;
use wasm_bridge::error::{BridgeError, SetupStep};
use wasm_bridge::executor::WasmtimeExecutor;
use wasm_bridge::loader::{load_module, locate_module, NO_ARGUMENTS};
use wasm_bridge::spec::{Annotation, ContainerSpec};
use wasm_bridge::stdio::{resolve, wants_file, OpenOutcome, Stream};
use wasmtime_wasi::cli::{InputFile, OutputFile};

fn small_engine() -> wasmtime::Engine {
    let mut config = wasmtime::Config::new();
    config.memory_reservation(1 << 20);
    config.memory_reservation_for_growth(0);
    config.memory_guard_size(0);
    config.guard_before_linear_memory(false);
    wasmtime::Engine::new(&config).expect("the engine is configured")
}

fn tmp() -> Dir {
    Dir::open_ambient_dir("/tmp", ambient_authority()).expect("/tmp is there")
}

fn write(path: &str, contents: &str) -> std::io::Result<()> {
    tmp().write(path.trim_start_matches("/tmp/"), contents)
}

fn read_to_string(path: &str) -> std::io::Result<String> {
    tmp().read_to_string(path.trim_start_matches("/tmp/"))
}

fn container(name: &str, module: &str) -> ContainerSpec {
    let root = format!("/tmp/wasm_bridge_{name}");
    tmp().create_dir_all(format!("wasm_bridge_{name}/bin")).expect("the root is made");
    write(&format!("{root}/bin/app"), module).expect("the module is written");
    ContainerSpec {
        args: vec!["/bin/app".to_string()],
        env: vec![],
        root,
        annotations: None,
    }
}

fn open(path: &str) -> OpenOutcome<cap_std::fs::File> {
    let relative = path.trim_start_matches("/tmp/");
    match tmp().open_with(relative, OpenOptions::new().read(true).write(true)) {
        Ok(file) => OpenOutcome::Opened(file),
        Err(error) if error.kind() == std::io::ErrorKind::NotFound => OpenOutcome::NotFound,
        Err(error) => OpenOutcome::Failed(error.to_string()),
    }
}

fn output(stream: Stream, path: &str) -> Option<OutputFile> {
    let file = resolve(stream, path, open(path)).expect("the file opens");
    file.map(|file| OutputFile::new(file.into_std()))
}

fn input(path: &str) -> Option<InputFile> {
    let file = resolve(Stream::Stdin, path, open(path)).expect("the file opens");
    file.map(|file| InputFile::new(file.into_std()))
}

const WRITES_HI: &str = r#"(module
  (import "wasi_snapshot_preview1" "fd_write"
    (func $write (param i32 i32 i32 i32) (result i32)))
  (memory (export "memory") 1)
  (data (i32.const 0) "\08\00\00\00\02\00\00\00hi")
  (func (export "_start")
    (if (i32.ne (call $write (i32.const FD) (i32.const 0) (i32.const 1) (i32.const 16))
                (i32.const 0))
      (then unreachable))
    (if (i32.ne (i32.load (i32.const 16)) (i32.const 2)) (then unreachable))))"#;

const READS_X: &str = r#"(module
  (import "wasi_snapshot_preview1" "fd_read"
    (func $read (param i32 i32 i32 i32) (result i32)))
  (memory (export "memory") 1)
  (data (i32.const 0) "\08\00\00\00\01\00\00\00")
  (func (export "_start")
    (if (i32.ne (call $read (i32.const 0) (i32.const 0) (i32.const 1) (i32.const 16))
                (i32.const 0))
      (then unreachable))
    (if (i32.ne (i32.load (i32.const 16)) (i32.const 1)) (then unreachable))
    (if (i32.ne (i32.load8_u (i32.const 8)) (i32.const 120)) (then unreachable))))"#;

#[test]
fn module_is_loaded_from_under_the_root() {
    let spec = container("loads", r#"(module (func (export "_start")))"#);
    let engine = small_engine();
    let artifact = load_module(&engine, &spec).expect("the module loads");
    assert_eq!(artifact.path, "/tmp/wasm_bridge_loads/bin/app");
    assert_eq!(locate_module(&spec).expect("a module is named"), artifact.path);
}

#[test]
fn first_argument_without_separator_loads_the_same_module() {
    let mut spec = container("relative", r#"(module (func (export "_start")))"#);
    spec.args = vec!["bin/app".to_string()];
    let artifact = load_module(&small_engine(), &spec).expect("the module loads");
    assert_eq!(artifact.path, "/tmp/wasm_bridge_relative/bin/app");
}

#[test]
fn missing_module_is_a_setup_failure() {
    let mut spec = container("missing", "(module)");
    spec.args = vec!["/bin/absent".to_string()];
    let failure = match load_module(&small_engine(), &spec) {
        Err(failure) => failure,
        Ok(_) => panic!("there is no such module"),
    };
    assert_eq!(failure.step, SetupStep::ModuleLoad);
    assert!(failure.message().starts_with("failed to load the module: "));
}

#[test]
fn module_that_does_not_compile_is_a_setup_failure() {
    let spec = container("garbage", "this is no module");
    let failure = match load_module(&small_engine(), &spec) {
        Err(failure) => failure,
        Ok(_) => panic!("the file holds no module"),
    };
    assert_eq!(failure.step, SetupStep::ModuleLoad);
}

#[test]
fn specification_without_arguments_names_no_module() {
    let mut spec = container("noargs", "(module)");
    spec.args = vec![];
    let failure = match load_module(&small_engine(), &spec) {
        Err(failure) => failure,
        Ok(_) => panic!("no module is named"),
    };
    assert_eq!(failure.step, SetupStep::ModulePath);
    assert_eq!(failure.cause, NO_ARGUMENTS);
    assert_eq!(locate_module(&spec).unwrap_err().step, SetupStep::ModulePath);
}

#[test]
fn end_to_end_success_exits_with_zero() {
    let spec = container("e2e_ok", r#"(module (func (export "_start")))"#);
    let executor = WasmtimeExecutor::new(small_engine());
    let prepared = match executor.prepare(&spec, StdioHandles::inherit()) {
        Ok(prepared) => prepared,
        Err(failure) => panic!("{}", failure.message()),
    };
    assert_eq!(prepared.artifact.path, "/tmp/wasm_bridge_e2e_ok/bin/app");
    assert_eq!(executor.exec(prepared).expect("the module runs").exit_code(), 0);
}

#[test]
fn end_to_end_trap_exits_with_137() {
    let spec = container("e2e_trap", r#"(module (func (export "_start") unreachable))"#);
    let executor = WasmtimeExecutor::new(small_engine());
    let prepared = match executor.prepare(&spec, StdioHandles::inherit()) {
        Ok(prepared) => prepared,
        Err(failure) => panic!("{}", failure.message()),
    };
    assert_eq!(executor.exec(prepared).expect("the module runs").exit_code(), 137);
}

#[test]
fn end_to_end_missing_entry_is_an_invalid_argument() {
    let spec = container("e2e_noentry", r#"(module (func (export "run")))"#);
    let executor = WasmtimeExecutor::new(small_engine());
    let prepared = match executor.prepare(&spec, StdioHandles::inherit()) {
        Ok(prepared) => prepared,
        Err(failure) => panic!("{}", failure.message()),
    };
    match executor.exec(prepared) {
        Err(BridgeError::InvalidArgument(export)) => assert_eq!(export, "_start"),
        other => panic!("expected an invalid argument, got {other:?}"),
    }
}

#[test]
fn preparation_fails_at_the_root_before_the_module() {
    let spec = ContainerSpec {
        args: vec![],
        env: vec![],
        root: "/tmp/wasm_bridge_no_such_root".to_string(),
        annotations: None,
    };
    let executor = WasmtimeExecutor::new(small_engine());
    match executor.prepare(&spec, StdioHandles::inherit()) {
        Err(failure) => assert_eq!(failure.step, SetupStep::RootDirectory),
        Ok(_) => panic!("the root is missing"),
    }
}

#[test]
fn stdout_override_receives_what_the_module_writes() {
    let spec = container("stdout", &WRITES_HI.replace("FD", "1"));
    let path = format!("{}/out.txt", spec.root);
    write(&path, "").expect("the file is made");
    let handles = StdioHandles { stdin: None, stdout: output(Stream::Stdout, &path), stderr: None };
    assert!(handles.stdout.is_some());
    let executor = WasmtimeExecutor::new(small_engine());
    let prepared = executor.prepare(&spec, handles).expect("the workload is prepared");
    assert_eq!(executor.exec(prepared).expect("the module runs").exit_code(), 0);
    assert_eq!(read_to_string(&path).expect("the file is read"), "hi");
}

#[test]
fn stderr_override_receives_what_the_module_writes() {
    let spec = container("stderr", &WRITES_HI.replace("FD", "2"));
    let out = format!("{}/out.txt", spec.root);
    let err = format!("{}/err.txt", spec.root);
    write(&out, "").expect("the file is made");
    write(&err, "").expect("the file is made");
    let handles = StdioHandles {
        stdin: None,
        stdout: output(Stream::Stdout, &out),
        stderr: output(Stream::Stderr, &err),
    };
    let executor = WasmtimeExecutor::new(small_engine());
    let prepared = executor.prepare(&spec, handles).expect("the workload is prepared");
    assert_eq!(executor.exec(prepared).expect("the module runs").exit_code(), 0);
    assert_eq!(read_to_string(&err).expect("the file is read"), "hi");
    assert_eq!(read_to_string(&out).expect("the file is read"), "");
}

#[test]
fn stdin_override_feeds_the_module() {
    let spec = container("stdin", READS_X);
    let path = format!("{}/in.txt", spec.root);
    write(&path, "x").expect("the file is made");
    let handles = StdioHandles { stdin: input(&path), stdout: None, stderr: None };
    let executor = WasmtimeExecutor::new(small_engine());
    let prepared = executor.prepare(&spec, handles).expect("the workload is prepared");
    assert_eq!(executor.exec(prepared).expect("the module runs").exit_code(), 0);
}

#[test]
fn stdin_without_override_is_closed() {
    let spec = container("stdin_default", READS_X);
    let executor = WasmtimeExecutor::new(small_engine());
    let prepared =
        executor.prepare(&spec, StdioHandles::inherit()).expect("the workload is prepared");
    assert_eq!(executor.exec(prepared).expect("the module runs").exit_code(), 137);
}

#[test]
fn path_of_a_missing_file_gives_no_override() {
    let path = "/tmp/wasm_bridge_no_such_file.txt";
    assert!(wants_file(path));
    let resolved = resolve(Stream::Stdout, path, open(path)).expect("a missing file is no failure");
    assert!(resolved.is_none());
}

#[test]
fn path_that_cannot_be_opened_fails_the_preparation() {
    let path = "/tmp/wasm_bridge_is_a_directory";
    tmp().create_dir_all("wasm_bridge_is_a_directory").expect("the directory is made");
    let failure = resolve(Stream::Stderr, path, open(path)).unwrap_err();
    assert_eq!(failure.step, SetupStep::Stderr);
    assert!(failure.message().starts_with("failed to open stderr: "));
    assert!(!failure.cause.is_empty());
}

#[test]
fn launch_declines_a_workload_that_is_not_annotated() {
    let spec = container("declined", r#"(module (func (export "_start")))"#);
    let executor = WasmtimeExecutor::new(small_engine());
    assert!(matches!(executor.launch(&spec, StdioHandles::inherit()), Err(BridgeError::Declined)));
}

#[test]
fn launch_declines_before_it_prepares() {
    let spec = ContainerSpec {
        args: vec![],
        env: vec![],
        root: "/tmp/wasm_bridge_no_such_root".to_string(),
        annotations: Some(vec![]),
    };
    let executor = WasmtimeExecutor::new(small_engine());
    assert!(matches!(executor.launch(&spec, StdioHandles::inherit()), Err(BridgeError::Declined)));
}

#[test]
fn launch_runs_an_annotated_workload() {
    let mut spec = container("launched", r#"(module (func (export "_start")))"#);
    spec.annotations = Some(vec![Annotation {
        key: "run.oci.handler".to_string(),
        value: "wasm".to_string(),
    }]);
    let executor = WasmtimeExecutor::new(small_engine());
    let outcome = executor.launch(&spec, StdioHandles::inherit()).expect("the module runs");
    assert_eq!(outcome.exit_code(), 0);
}

#[test]
fn launch_reports_a_trap_as_137() {
    let mut spec = container("launched_trap", r#"(module (func (export "_start") unreachable))"#);
    spec.annotations = Some(vec![Annotation {
        key: "module.wasm.image/variant".to_string(),
        value: "compat".to_string(),
    }]);
    let executor = WasmtimeExecutor::new(small_engine());
    let outcome = executor.launch(&spec, StdioHandles::inherit()).expect("the module runs");
    assert_eq!(outcome.exit_code(), 137);
}

#[test]
fn launch_reports_a_failed_preparation() {
    let mut spec = container("launched_missing", "(module)");
    spec.args = vec!["/bin/absent".to_string()];
    spec.annotations = Some(vec![Annotation {
        key: "run.oci.handler".to_string(),
        value: "wasm".to_string(),
    }]);
    let executor = WasmtimeExecutor::new(small_engine());
    match executor.launch(&spec, StdioHandles::inherit()) {
        Err(BridgeError::Setup(failure)) => assert_eq!(failure.step, SetupStep::ModuleLoad),
        other => panic!("expected a setup failure, got {other:?}"),
    }
}
