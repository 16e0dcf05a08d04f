use eww::config::{Config, EwwConfig, EwwWindowDefinition, ScriptVarDefinition, VarDefinition, WidgetDefinition, WindowDefinition};
use eww::error::{ConfigError, NotFoundKind};
use eww::expr::{DynVal, VarName};
use eww::name_map::NameMap;
use eww::span::Span;

fn sp() -> Span {
    Span(0, 0, 1)
}

fn val(s: &str) -> DynVal {
    DynVal(s.to_string(), sp())
}

fn widget(name: &str) -> WidgetDefinition {
    WidgetDefinition { name: name.to_string(), widget: vec![], span: sp() }
}

fn window(name: &str, widget: &str) -> WindowDefinition {
    WindowDefinition { name: name.to_string(), widget: widget.to_string(), span: sp() }
}

fn poll(name: &str) -> ScriptVarDefinition {
    ScriptVarDefinition::Poll { name: VarName(name.to_string()), command: "date".to_string(), interval_ms: 1000 }
}

fn listen(name: &str, initial: &str) -> ScriptVarDefinition {
    ScriptVarDefinition::Listen {
        name: VarName(name.to_string()),
        command: "tail -f log".to_string(),
        initial_value: val(initial),
    }
}

fn empty_config() -> Config {
    Config {
        widget_definitions: NameMap::new(),
        window_definitions: NameMap::new(),
        var_definitions: NameMap::new(),
        script_vars: NameMap::new(),
    }
}

fn path() -> String {
    "/home/u/.config/eww/eww.yuck".to_string()
}

#[test]
fn window_with_unknown_widget_fails() {
    let mut config = empty_config();
    config.window_definitions.insert("bar".to_string(), window("bar", "foo"));
    let r = EwwConfig::read_from_file(&path(), true, config, NameMap::new());
    let err = r.err().unwrap();
    assert_eq!(err, ConfigError::WidgetNotFound { widget: "foo".to_string(), window: "bar".to_string() });
    assert_eq!(err.message(), "Unknown widget `foo` referenced in window `bar`");
}

#[test]
fn missing_configuration_fails() {
    let r = EwwConfig::read_from_file(&path(), false, empty_config(), NameMap::new());
    let err = r.err().unwrap();
    assert_eq!(err, ConfigError::ConfigNotFound { path: path(), kind: NotFoundKind::MissingFile });
    assert_eq!(err.message(), "The configuration file `/home/u/.config/eww/eww.yuck` does not exist");
}

fn sample() -> (Config, NameMap<ScriptVarDefinition>) {
    let mut config = empty_config();
    config.widget_definitions.insert("foo".to_string(), widget("foo"));
    config.window_definitions.insert("bar".to_string(), window("bar", "foo"));
    config.var_definitions.insert(
        "x".to_string(),
        VarDefinition { name: VarName("x".to_string()), initial_value: val("b"), span: sp() },
    );
    config.script_vars.insert("x".to_string(), poll("x"));
    config.script_vars.insert("clock".to_string(), poll("clock"));
    let mut inbuilt = NameMap::new();
    inbuilt.insert("clock".to_string(), listen("clock", "0"));
    inbuilt.insert("ram".to_string(), listen("ram", "1"));
    (config, inbuilt)
}

#[test]
fn load_resolves_windows_and_merges_inbuilt() {
    let (config, inbuilt) = sample();
    let c = EwwConfig::read_from_file(&path(), true, config, inbuilt).unwrap();
    assert_eq!(
        c.get_window(&"bar".to_string()),
        Ok(&EwwWindowDefinition { name: "bar".to_string(), widget: "foo".to_string(), span: sp() })
    );
    assert_eq!(c.get_windows().len(), 1);
    assert_eq!(c.get_widget_definitions().get(&"foo".to_string()), Some(&widget("foo")));
    assert_eq!(c.get_script_var(&VarName("clock".to_string())), Ok(&listen("clock", "0")));
    assert_eq!(c.get_script_var(&VarName("ram".to_string())), Ok(&listen("ram", "1")));
    assert_eq!(c.get_script_var(&VarName("x".to_string())), Ok(&poll("x")));
}

#[test]
fn load_twice_gives_same_config() {
    let (c1, i1) = sample();
    let (c2, i2) = sample();
    let a = EwwConfig::read_from_file(&path(), true, c1, i1).unwrap();
    let b = EwwConfig::read_from_file(&path(), true, c2, i2).unwrap();
    assert_eq!(a.get_windows(), b.get_windows());
    assert_eq!(a.get_widget_definitions(), b.get_widget_definitions());
    let mut computed = NameMap::new();
    computed.insert("x".to_string(), Ok(val("a")));
    assert_eq!(a.generate_initial_state(&computed), b.generate_initial_state(&computed));
}

#[test]
fn lookups_of_unknown_names_fail() {
    let (config, inbuilt) = sample();
    let c = EwwConfig::read_from_file(&path(), true, config, inbuilt).unwrap();
    let err = c.get_window(&"nope".to_string()).err().unwrap();
    assert_eq!(err, ConfigError::WindowNotFound("nope".to_string()));
    assert!(err.message().starts_with("No window named 'nope' exists in config.\n"));
    assert!(err.message().contains("failing to load properly"));
    let err = c.get_script_var(&VarName("nope".to_string())).err().unwrap();
    assert_eq!(err, ConfigError::ScriptVarNotFound("nope".to_string()));
    assert_eq!(err.message(), "No script var named 'nope' exists");
}

#[test]
fn static_value_wins_over_computed() {
    let (config, inbuilt) = sample();
    let c = EwwConfig::read_from_file(&path(), true, config, inbuilt).unwrap();
    let mut computed = NameMap::new();
    computed.insert("x".to_string(), Ok(val("a")));
    let state = c.generate_initial_state(&computed).unwrap();
    assert_eq!(state.len(), 3);
    assert_eq!(state.get(&"x".to_string()), Some(&val("b")));
    assert_eq!(state.get(&"clock".to_string()), Some(&val("0")));
    assert_eq!(state.get(&"ram".to_string()), Some(&val("1")));
}

#[test]
fn failed_computation_aborts_state() {
    let (config, inbuilt) = sample();
    let c = EwwConfig::read_from_file(&path(), true, config, inbuilt).unwrap();
    let mut computed = NameMap::new();
    computed.insert("x".to_string(), Err("exit status 1".to_string()));
    let err = c.generate_initial_state(&computed).err().unwrap();
    assert_eq!(
        err,
        ConfigError::ComputationFailed { var: "x".to_string(), message: "exit status 1".to_string() }
    );
    assert_eq!(err.message(), "Failed to compute the initial value of `x`: exit status 1");
    let missing = c.generate_initial_state(&NameMap::new()).err().unwrap();
    assert!(matches!(missing, ConfigError::ComputationFailed { ref var, .. } if var == "x"));
}

#[test]
fn default_config_is_empty() {
    let c = EwwConfig::default();
    assert_eq!(c.get_windows().len(), 0);
    assert_eq!(c.get_widget_definitions().len(), 0);
    assert_eq!(c.generate_initial_state(&NameMap::new()).unwrap().len(), 0);
}

#[test]
fn name_map_insert_get_extend() {
    let mut m = NameMap::new();
    m.insert("a".to_string(), 1u32);
    m.insert("b".to_string(), 2u32);
    m.insert("a".to_string(), 3u32);
    assert_eq!(m.len(), 2);
    assert_eq!(m.get(&"a".to_string()), Some(&3));
    assert_eq!(m.get(&"c".to_string()), None);
    let mut other = NameMap::new();
    other.insert("b".to_string(), 20u32);
    other.insert("c".to_string(), 30u32);
    m.extend(other);
    assert_eq!(m.len(), 3);
    assert_eq!(m.get(&"b".to_string()), Some(&20));
    assert_eq!(m.get(&"c".to_string()), Some(&30));
    assert_eq!(m.entry_at(0), (&"a".to_string(), &3));
}
