use config_loader::{
    check_table, command_line, config_path, defaults, env_var_name, finalize, from_env, from_file,
    load, parse_unsigned, parse_value, same_value, Configuration, FieldDescriptor, FieldKind,
    FileContents, FileEntry, FileValue, LoadError, PartialConfig, Value,
};

fn opts_table() -> Vec<FieldDescriptor> {
    vec![
        FieldDescriptor::new("config", FieldKind::Text, Some("config.yml")),
        FieldDescriptor::new("first_name", FieldKind::Text, Some("John")),
        FieldDescriptor::new("last_name", FieldKind::Text, Some("Doe")),
        FieldDescriptor::new("age", FieldKind::U8, Some("42")),
    ]
}

fn text(s: &str) -> Option<Value> {
    Some(Value::Text(s.to_string()))
}

fn num(n: u64) -> Option<Value> {
    Some(Value::Unsigned(n))
}

fn partial(values: Vec<Option<Value>>) -> PartialConfig {
    PartialConfig { values }
}

fn raw(values: &[Option<&str>]) -> Vec<Option<String>> {
    values.iter().map(|v| v.map(|s| s.to_string())).collect()
}

fn entry(key: &str, value: FileValue) -> FileEntry {
    FileEntry { key: key.to_string(), value }
}

fn assert_same(a: &PartialConfig, b: &PartialConfig) {
    assert_eq!(a.len(), b.len());
    for i in 0..a.len() {
        assert!(same_value(a.get(i), b.get(i)), "field {} differs: {:?} vs {:?}", i, a.get(i), b.get(i));
    }
}

fn assert_text(c: &Configuration, i: usize, expected: &str) {
    match c.get(i) {
        Some(Value::Text(s)) => assert_eq!(s, expected),
        other => panic!("field {} is {:?}", i, other),
    }
}

fn assert_num(c: &Configuration, i: usize, expected: u64) {
    match c.get(i) {
        Some(Value::Unsigned(n)) => assert_eq!(*n, expected),
        other => panic!("field {} is {:?}", i, other),
    }
}

/// Runs the whole pipeline the way a program does: command line first, then
/// the file its `config` field names, then the environment.
fn run(cli_args: &[Option<&str>], file: Option<FileContents>, env: &[Option<&str>]) -> Result<Configuration, LoadError> {
    let fields = opts_table();
    assert!(check_table(&fields));
    let cli = command_line(&fields, &raw(cli_args))?;
    let contents = match config_path(&fields, &cli) {
        Some(_) => file.unwrap_or(FileContents::Absent),
        None => FileContents::Absent,
    };
    load(&fields, &cli, &contents, &raw(env))
}

const NO_FLAGS: [Option<&str>; 4] = [Some("config.yml"), Some("John"), Some("Doe"), Some("42")];
const NO_ENV: [Option<&str>; 4] = [None, None, None, None];

#[test]
fn merge_takes_right_where_present() {
    let a = partial(vec![text("a"), num(1), None]);
    let b = partial(vec![None, num(2), None]);
    let m = PartialConfig::merge(&a, &b);
    assert_same(&m, &partial(vec![text("a"), num(2), None]));
}

#[test]
fn merge_is_associative_on_values() {
    let a = partial(vec![text("a"), num(1), None, None]);
    let b = partial(vec![None, num(2), text("b"), None]);
    let c = partial(vec![text("c"), None, None, None]);
    let left = PartialConfig::merge(&PartialConfig::merge(&a, &b), &c);
    let right = PartialConfig::merge(&a, &PartialConfig::merge(&b, &c));
    assert_same(&left, &right);
    assert_same(&left, &partial(vec![text("c"), num(2), text("b"), None]));
}

#[test]
fn merge_is_not_commutative() {
    let a = partial(vec![num(1)]);
    let b = partial(vec![num(2)]);
    assert!(!same_value(PartialConfig::merge(&a, &b).get(0), PartialConfig::merge(&b, &a).get(0)));
}

#[test]
fn resolve_with_cli_equal_to_defaults_gives_baseline() {
    let d = partial(vec![text("John"), num(42)]);
    let cli = partial(vec![text("John"), num(42)]);
    let base = partial(vec![text("Jane"), None]);
    assert_same(&PartialConfig::resolve(&cli, &d, &base), &base);
}

#[test]
fn resolve_takes_cli_where_it_differs() {
    let d = partial(vec![text("John"), num(42), None]);
    let cli = partial(vec![text("Ann"), num(42), text("x")]);
    let base = partial(vec![text("Jane"), num(30), None]);
    let r = PartialConfig::resolve(&cli, &d, &base);
    assert_same(&r, &partial(vec![text("Ann"), num(30), text("x")]));
}

#[test]
fn resolve_absent_cli_against_present_default_wins() {
    let d = partial(vec![num(42)]);
    let cli = partial(vec![None]);
    let base = partial(vec![num(30)]);
    assert!(same_value(PartialConfig::resolve(&cli, &d, &base).get(0), &None));
}

#[test]
fn finalize_fills_every_field() {
    let fields = opts_table();
    let c = finalize(&fields, &partial(vec![None, text("Ann"), None, None]));
    assert_eq!(c.len(), 4);
    assert_text(&c, 0, "");
    assert_text(&c, 1, "Ann");
    assert_text(&c, 2, "");
    assert_num(&c, 3, 0);
}

#[test]
fn finalize_leaves_optional_fields_without_value() {
    let fields = vec![
        FieldDescriptor::new_optional("nickname", FieldKind::Text, None),
        FieldDescriptor::new_optional("level", FieldKind::U8, None),
        FieldDescriptor::new("age", FieldKind::U8, None),
    ];
    let c = finalize(&fields, &partial(vec![None, num(3), None]));
    assert!(c.get(0).is_none());
    assert_num(&c, 1, 3);
    assert_num(&c, 2, 0);
}

#[test]
fn scenario_defaults_only() {
    let c = run(&NO_FLAGS, None, &NO_ENV).unwrap();
    assert_text(&c, 0, "config.yml");
    assert_text(&c, 1, "John");
    assert_text(&c, 2, "Doe");
    assert_num(&c, 3, 42);
}

#[test]
fn scenario_file_overrides_default() {
    let file = FileContents::Document(vec![entry("age", FileValue::Unsigned(30))]);
    let c = run(&NO_FLAGS, Some(file), &NO_ENV).unwrap();
    assert_num(&c, 3, 30);
    assert_text(&c, 1, "John");
    assert_text(&c, 2, "Doe");
}

#[test]
fn scenario_env_overrides_file() {
    let file = FileContents::Document(vec![entry("age", FileValue::Unsigned(30))]);
    let c = run(&NO_FLAGS, Some(file), &[None, None, None, Some("51")]).unwrap();
    assert_num(&c, 3, 51);
}

#[test]
fn scenario_explicit_cli_overrides_all() {
    let file = FileContents::Document(vec![entry("age", FileValue::Unsigned(30))]);
    let args = [Some("config.yml"), Some("John"), Some("Doe"), Some("7")];
    let c = run(&args, Some(file), &[None, None, None, Some("51")]).unwrap();
    assert_num(&c, 3, 7);
}

#[test]
fn scenario_cli_equal_to_default_loses_to_file() {
    let file = FileContents::Document(vec![entry("age", FileValue::Unsigned(30))]);
    let args = [Some("config.yml"), Some("John"), Some("Doe"), Some("42")];
    let c = run(&args, Some(file), &NO_ENV).unwrap();
    assert_num(&c, 3, 30);
}

#[test]
fn scenario_malformed_file() {
    let r = run(&NO_FLAGS, Some(FileContents::Malformed), &NO_ENV);
    assert_eq!(r.unwrap_err(), LoadError::FileDecode);
}

#[test]
fn file_value_of_wrong_kind_is_decode_error() {
    let fields = opts_table();
    let doc = FileContents::Document(vec![entry("age", FileValue::Text("old".to_string()))]);
    assert_eq!(from_file(&fields, &doc).unwrap_err(), LoadError::FileDecode);
    let doc = FileContents::Document(vec![entry("age", FileValue::Unsigned(256))]);
    assert_eq!(from_file(&fields, &doc).unwrap_err(), LoadError::FileDecode);
    let doc = FileContents::Document(vec![entry("first-name", FileValue::Other)]);
    assert_eq!(from_file(&fields, &doc).unwrap_err(), LoadError::FileDecode);
}

#[test]
fn file_keys_are_kebab_case_and_unknown_keys_ignored() {
    let fields = opts_table();
    let doc = FileContents::Document(vec![
        entry("first_name", FileValue::Text("Snake".to_string())),
        entry("first-name", FileValue::Text("Kebab".to_string())),
        entry("nickname", FileValue::Other),
        entry("last-name", FileValue::Null),
    ]);
    let p = from_file(&fields, &doc).unwrap();
    assert_same(&p, &partial(vec![None, text("Kebab"), None, None]));
}

#[test]
fn absent_file_gives_no_values() {
    let fields = opts_table();
    let p = from_file(&fields, &FileContents::Absent).unwrap();
    assert_same(&p, &partial(vec![None, None, None, None]));
}

#[test]
fn unreadable_env_value_is_ignored() {
    let fields = opts_table();
    let p = from_env(&fields, &raw(&[None, Some("Ann"), None, Some("old")]));
    assert_same(&p, &partial(vec![None, text("Ann"), None, None]));
    let c = run(&NO_FLAGS, None, &[None, None, None, Some("300")]).unwrap();
    assert_num(&c, 3, 42);
}

#[test]
fn malformed_cli_value_is_an_error() {
    let fields = opts_table();
    let r = command_line(&fields, &raw(&[Some("c.yml"), Some("John"), Some("Doe"), Some("abc")]));
    assert_eq!(r.unwrap_err(), LoadError::MalformedArguments { field: 3 });
    let r = run(&[Some("config.yml"), Some("John"), Some("Doe"), Some("256")], None, &NO_ENV);
    assert_eq!(r.unwrap_err(), LoadError::MalformedArguments { field: 3 });
}

#[test]
fn defaults_read_declared_texts() {
    let fields = opts_table();
    let d = defaults(&fields);
    assert_same(&d, &partial(vec![text("config.yml"), text("John"), text("Doe"), num(42)]));
}

#[test]
fn table_with_unreadable_default_is_rejected() {
    let fields = vec![FieldDescriptor::new("age", FieldKind::U8, Some("forty"))];
    assert!(!check_table(&fields));
    let fields = vec![FieldDescriptor::new("age", FieldKind::U8, None)];
    assert!(check_table(&fields));
    assert_same(&defaults(&fields), &partial(vec![None]));
}

#[test]
fn config_path_is_cli_value_of_config_field() {
    let fields = opts_table();
    let cli = command_line(&fields, &raw(&[Some("other.yml"), Some("John"), Some("Doe"), Some("42")])).unwrap();
    assert_eq!(config_path(&fields, &cli), Some("other.yml".to_string()));
    let no_config = vec![FieldDescriptor::new("age", FieldKind::U8, Some("42"))];
    let cli = command_line(&no_config, &raw(&[Some("42")])).unwrap();
    assert_eq!(config_path(&no_config, &cli), None);
}

#[test]
fn env_name_is_uppercased_field_name() {
    let f = FieldDescriptor::new("first_name", FieldKind::Text, None);
    assert_eq!(env_var_name(&f), "FIRST_NAME");
}

#[test]
fn decimal_parsing_edges() {
    assert_eq!(parse_unsigned("0", 255), Some(0));
    assert_eq!(parse_unsigned("255", 255), Some(255));
    assert_eq!(parse_unsigned("256", 255), None);
    assert_eq!(parse_unsigned("+7", 255), Some(7));
    assert_eq!(parse_unsigned("007", 255), Some(7));
    assert_eq!(parse_unsigned("", 255), None);
    assert_eq!(parse_unsigned("+", 255), None);
    assert_eq!(parse_unsigned("-1", 255), None);
    assert_eq!(parse_unsigned(" 1", 255), None);
    assert_eq!(parse_unsigned("18446744073709551615", u64::MAX), Some(u64::MAX));
    assert_eq!(parse_unsigned("18446744073709551616", u64::MAX), None);
    assert!(matches!(parse_value(FieldKind::U16, "65535"), Some(Value::Unsigned(65535))));
    assert!(parse_value(FieldKind::U16, "65536").is_none());
    assert!(matches!(parse_value(FieldKind::Text, "abc"), Some(Value::Text(ref s)) if s == "abc"));
}

#[test]
fn load_error_messages() {
    assert!(!LoadError::FileDecode.message().is_empty());
    assert!(!LoadError::MalformedArguments { field: 0 }.message().is_empty());
}
