use confy::{Action, ConfyError, Engine, Event, Outcome};
use toml::{Table, Value};

/// A file and its directory, kept in memory.
struct Disk {
    parent_exists: bool,
    file: Option<String>,
    readonly: bool,
    dirs_created: usize,
}

impl Disk {
    fn empty() -> Disk {
        Disk { parent_exists: false, file: None, readonly: false, dirs_created: 0 }
    }

    fn holding(text: &str) -> Disk {
        Disk { parent_exists: true, file: Some(text.to_string()), readonly: false, dirs_created: 0 }
    }
}

/// Performs the engine's actions on `disk`, with the TOML codec, until it is
/// done. Returns the outcome, the value to hand back (decoded or provided),
/// and every action that was asked for.
fn drive(
    start: (Engine, Action),
    disk: &mut Disk,
    to_store: Option<Value>,
    fallback: Value,
    readonly_perms: bool,
) -> (Result<(Outcome, Option<Value>), ConfyError>, Vec<&'static str>) {
    let (mut engine, mut action) = start;
    let mut value = to_store;
    let mut decoded: Option<Value> = None;
    let mut trace = Vec::new();
    loop {
        let event = match action {
            Action::OpenForRead => {
                trace.push("open-read");
                match &disk.file {
                    Some(_) => Event::Opened,
                    None => Event::Missing,
                }
            }
            Action::ReadText => {
                trace.push("read");
                Event::Read(Ok(disk.file.clone().unwrap()))
            }
            Action::DecodeText(text) => {
                trace.push("decode");
                match toml::from_str::<Table>(&text) {
                    Ok(t) => {
                        decoded = Some(Value::Table(t));
                        Event::Decoded(Ok(()))
                    }
                    Err(e) => Event::Decoded(Err(e)),
                }
            }
            Action::CreateParentDirs => {
                trace.push("mkdir");
                disk.parent_exists = true;
                disk.dirs_created += 1;
                Event::DirsCreated(Ok(()))
            }
            Action::MakeFallback => {
                trace.push("fallback");
                value = Some(fallback.clone());
                Event::FallbackMade
            }
            Action::EncodeValue => {
                trace.push("encode");
                Event::Encoded(toml::to_string_pretty(value.as_ref().unwrap()))
            }
            Action::OpenForWrite => {
                trace.push("open-write");
                assert!(disk.parent_exists);
                disk.file = Some(String::new());
                Event::OpenedForWrite(Ok(()))
            }
            Action::SetPermissions => {
                trace.push("perms");
                disk.readonly = readonly_perms;
                Event::PermissionsSet(Ok(()))
            }
            Action::WriteText(text) => {
                trace.push("write");
                disk.file = Some(text);
                Event::Written(Ok(()))
            }
            Action::Done(result) => {
                trace.push("done");
                let result = result.map(|outcome| {
                    let v = match outcome {
                        Outcome::Decoded => decoded.clone(),
                        Outcome::Provided => value.clone(),
                        Outcome::Stored => None,
                    };
                    (outcome, v)
                });
                return (result, trace);
            }
        };
        assert!(engine.expects(&event));
        action = engine.step(event);
    }
}

/// The default value of the example configuration: an empty name and a
/// zero count.
fn example_default() -> Value {
    example("", 0)
}

fn load(disk: &mut Disk) -> Result<(Outcome, Option<Value>), ConfyError> {
    drive(Engine::load(true, "\"cfg.toml\"".to_string()), disk, None, example_default(), false).0
}

fn load_or_else(disk: &mut Disk, fallback: Value) -> Result<(Outcome, Option<Value>), ConfyError> {
    drive(Engine::load_or_else(true, "\"cfg.toml\"".to_string()), disk, None, fallback, false).0
}

fn store(disk: &mut Disk, v: Value) -> Result<(Outcome, Option<Value>), ConfyError> {
    drive(Engine::store(true, "\"cfg.toml\"".to_string(), false), disk, Some(v), Value::Boolean(false), false)
        .0
}

fn example(name: &str, count: i64) -> Value {
    let mut t = Table::new();
    t.insert("name".to_string(), Value::String(name.to_string()));
    t.insert("count".to_string(), Value::Integer(count));
    Value::Table(t)
}

fn io_error() -> std::io::Error {
    std::io::Error::new(std::io::ErrorKind::PermissionDenied, "denied")
}

fn done_error(action: Action) -> ConfyError {
    match action {
        Action::Done(Err(e)) => e,
        _ => panic!("expected a failed call"),
    }
}

#[test]
fn load_path_works() {
    let mut disk = Disk::empty();
    let (outcome, value) = load(&mut disk).expect("load_path failed");
    assert!(matches!(outcome, Outcome::Provided));
    assert_eq!(value, Some(example_default()));
    assert!(disk.file.is_some());
    let (outcome, again) = load(&mut disk).expect("load_path failed");
    assert!(matches!(outcome, Outcome::Decoded));
    assert_eq!(again, value);
}

#[test]
fn load_or_else_works() {
    let the_value = || example("a", 5);

    let mut disk = Disk::empty();
    let (_, config) = load_or_else(&mut disk, the_value()).expect("load_or_else failed");
    assert_eq!(config, Some(the_value()));

    let mut disk = Disk::holding("some normal text");
    let (outcome, config) = load_or_else(&mut disk, the_value()).expect("load_or_else failed");
    assert!(matches!(outcome, Outcome::Provided));
    assert_eq!(config, Some(the_value()));
    let (_, reloaded) = load(&mut disk).expect("load_path failed");
    assert_eq!(reloaded, Some(the_value()));
}

#[test]
fn test_store_path() {
    let config = example("Test", 42);
    let mut disk = Disk::empty();
    store(&mut disk, config.clone()).expect("store_path failed");
    let (_, loaded) = load(&mut disk).expect("load_path failed");
    assert_eq!(Some(config), loaded);
}

#[test]
fn test_store_path_perms() {
    let config = example("Secret", 16549);
    let mut disk = Disk::empty();
    let start = Engine::store(true, "\"cfg.toml\"".to_string(), true);
    let (result, trace) = drive(start, &mut disk, Some(config.clone()), Value::Boolean(false), false);
    result.expect("store_path_perms failed");
    assert_eq!(trace, vec!["mkdir", "encode", "open-write", "perms", "write", "done"]);
    let (_, loaded) = load(&mut disk).expect("load_path failed");
    assert_eq!(Some(config), loaded);
}

#[test]
fn test_store_path_perms_readonly() {
    let config = example("Soon read-only", 27115);
    let mut disk = Disk::empty();
    store(&mut disk, config.clone()).expect("store_path failed");
    assert!(!disk.readonly);
    let start = Engine::store(true, "\"cfg.toml\"".to_string(), true);
    let (result, _) = drive(start, &mut disk, Some(config), Value::Boolean(false), true);
    result.expect("store_path_perms failed");
    assert!(disk.readonly);
}

#[test]
fn test_store_path_root_error() {
    let (_, action) = Engine::store(false, format!("{:?}", "/"), false);
    let err = done_error(action);
    assert_eq!(err.to_string(), r#"Bad configuration directory: "/" is a root or prefix"#,);
}

#[test]
fn test_store_path_atomic() {
    let message = "Hello world!";
    let mut disk = Disk::holding(message);
    // A bare integer is no TOML document: encoding it fails.
    let (result, trace) = drive(
        Engine::store(true, "\"cfg.toml\"".to_string(), false),
        &mut disk,
        Some(Value::Integer(7)),
        Value::Boolean(false),
        false,
    );
    assert!(matches!(result, Err(ConfyError::SerializeTomlError(_))));
    assert!(!trace.contains(&"open-write"));
    assert_eq!(disk.file.as_deref(), Some(message));
}

#[test]
fn round_trip_through_store_and_load() {
    for (name, count) in [("", 0), ("x y z", -3), ("üñí", i64::MAX)] {
        let mut disk = Disk::empty();
        store(&mut disk, example(name, count)).expect("store failed");
        let (_, loaded) = load(&mut disk).expect("load failed");
        assert_eq!(loaded, Some(example(name, count)));
    }
}

#[test]
fn missing_file_run_provisions_parent_twice_then_writes() {
    let mut disk = Disk::empty();
    let (_, trace) =
        drive(Engine::load(true, "\"p\"".to_string()), &mut disk, None, example("d", 1), false);
    assert_eq!(
        trace,
        vec!["open-read", "mkdir", "fallback", "mkdir", "encode", "open-write", "write", "done"]
    );
    assert_eq!(disk.dirs_created, 2);
}

#[test]
fn load_without_parent_fails_with_bad_directory() {
    let mut disk = Disk::empty();
    let (result, trace) =
        drive(Engine::load(false, "\"\"".to_string()), &mut disk, None, example("d", 1), false);
    let err = result.err().expect("load should fail");
    assert_eq!(err.to_string(), r#"Bad configuration directory: "" is a root or prefix"#);
    assert_eq!(trace, vec!["open-read", "fallback", "done"]);
    assert!(disk.file.is_none());
}

#[test]
fn load_reports_bad_toml() {
    let mut disk = Disk::holding("some normal text");
    let err = load(&mut disk).err().expect("load should fail");
    assert!(matches!(err, ConfyError::BadTomlData(_)));
    assert_eq!(err.to_string(), "Bad TOML data");
    assert_eq!(disk.file.as_deref(), Some("some normal text"));
}

#[test]
fn open_failure_is_a_general_load_error() {
    let (mut engine, _) = Engine::load_or_else(true, "\"p\"".to_string());
    let err = done_error(engine.step(Event::OpenFailed(io_error())));
    assert!(matches!(err, ConfyError::GeneralLoadError(_)));
    assert_eq!(err.to_string(), "Failed to load configuration file");
}

#[test]
fn read_failure_is_reported_by_load() {
    let (mut engine, _) = Engine::load(true, "\"p\"".to_string());
    assert!(matches!(engine.step(Event::Opened), Action::ReadText));
    let err = done_error(engine.step(Event::Read(Err(io_error()))));
    assert!(matches!(err, ConfyError::ReadConfigurationFileError(_)));
    assert_eq!(err.to_string(), "Failed to read configuration file");
}

#[test]
fn read_failure_is_reported_by_load_or_else() {
    let (mut engine, _) = Engine::load_or_else(true, "\"p\"".to_string());
    engine.step(Event::Opened);
    let err = done_error(engine.step(Event::Read(Err(io_error()))));
    assert!(matches!(err, ConfyError::ReadConfigurationFileError(_)));
    assert!(!engine.expects(&Event::FallbackMade));
}

#[test]
fn directory_failure_is_reported() {
    let (mut engine, first) = Engine::store(true, "\"p\"".to_string(), false);
    assert!(matches!(first, Action::CreateParentDirs));
    let err = done_error(engine.step(Event::DirsCreated(Err(io_error()))));
    assert!(matches!(err, ConfyError::DirectoryCreationFailed(_)));
    assert_eq!(err.to_string(), "Failed to create directory");
}

fn store_until_opened(with_permissions: bool) -> Engine {
    let (mut engine, _) = Engine::store(true, "\"p\"".to_string(), with_permissions);
    engine.step(Event::DirsCreated(Ok(())));
    engine.step(Event::Encoded(Ok("a = 1\n".to_string())));
    engine
}

#[test]
fn open_for_write_failure_is_reported() {
    let mut engine = store_until_opened(false);
    let err = done_error(engine.step(Event::OpenedForWrite(Err(io_error()))));
    assert!(matches!(err, ConfyError::OpenConfigurationFileError(_)));
    assert_eq!(err.to_string(), "Failed to open configuration file");
}

#[test]
fn permission_failure_is_reported() {
    let mut engine = store_until_opened(true);
    assert!(matches!(engine.step(Event::OpenedForWrite(Ok(()))), Action::SetPermissions));
    let err = done_error(engine.step(Event::PermissionsSet(Err(io_error()))));
    assert!(matches!(err, ConfyError::SetPermissionsFileError(_)));
    assert_eq!(err.to_string(), "Failed to set configuration file permissions");
}

#[test]
fn write_failure_is_reported() {
    let mut engine = store_until_opened(false);
    match engine.step(Event::OpenedForWrite(Ok(()))) {
        Action::WriteText(text) => assert_eq!(text, "a = 1\n"),
        _ => panic!("expected the encoded text to be written"),
    }
    let err = done_error(engine.step(Event::Written(Err(io_error()))));
    assert!(matches!(err, ConfyError::WriteConfigurationFileError(_)));
    assert_eq!(err.to_string(), "Failed to write configuration file");
}

#[test]
fn serialize_error_message() {
    let err = toml::to_string_pretty(&Value::Integer(1)).err().expect("encoding should fail");
    assert_eq!(
        ConfyError::SerializeTomlError(err).to_string(),
        "Failed to serialize configuration data into TOML"
    );
}

#[test]
fn finished_engine_expects_nothing() {
    let (engine, _) = Engine::store(false, "\"/\"".to_string(), false);
    assert!(!engine.expects(&Event::Opened));
    assert!(!engine.expects(&Event::Written(Ok(()))));
}

#[test]
fn engine_rejects_out_of_turn_reports() {
    let (engine, _) = Engine::load(true, "\"p\"".to_string());
    assert!(engine.expects(&Event::Missing));
    assert!(!engine.expects(&Event::FallbackMade));
    assert!(!engine.expects(&Event::Read(Ok(String::new()))));
}
