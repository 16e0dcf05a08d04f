use crate::ast::Ast;
use crate::error::{ConfigError, NotFoundKind};
use crate::expr::{DynVal, VarName};
use crate::name_map::{entries_map, names_distinct, NameMap};
use crate::span::Span;
use vstd::prelude::*;
use vstd::string::StringExecFns;

verus! {

/// A named widget: the document content it is built from.
#[derive(Debug, PartialEq, Eq)]
pub struct WidgetDefinition {
    pub name: String,
    pub widget: Vec<Ast>,
    pub span: Span,
}

/// A window as written in the document: its name and the widget it shows.
#[derive(Debug, Clone, PartialEq, Eq)]
pub struct WindowDefinition {
    pub name: String,
    pub widget: String,
    pub span: Span,
}

/// A window whose widget was found among the widget definitions.
#[derive(Debug, Clone, PartialEq, Eq)]
pub struct EwwWindowDefinition {
    pub name: String,
    pub widget: String,
    pub span: Span,
}

/// A variable with a value written in the document.
#[derive(Debug, Clone, PartialEq, Eq)]
pub struct VarDefinition {
    pub name: VarName,
    pub initial_value: DynVal,
    pub span: Span,
}

/// A variable whose value comes from a command.
#[derive(Debug, Clone, PartialEq, Eq)]
pub enum ScriptVarDefinition {
    /// Runs `command` every `interval_ms`; its first value is what a first run prints.
    Poll { name: VarName, command: String, interval_ms: u64 },
    /// Reads the lines that `command` prints; it starts at `initial_value`.
    Listen { name: VarName, command: String, initial_value: DynVal },
}

/// The definitions read from a configuration document.
pub struct Config {
    pub widget_definitions: NameMap<WidgetDefinition>,
    pub window_definitions: NameMap<WindowDefinition>,
    pub var_definitions: NameMap<VarDefinition>,
    pub script_vars: NameMap<ScriptVarDefinition>,
}

impl Config {
    pub open spec fn wf(&self) -> bool {
        &&& self.widget_definitions.wf()
        &&& self.window_definitions.wf()
        &&& self.var_definitions.wf()
        &&& self.script_vars.wf()
    }
}

/// A window with its widget resolved.
pub open spec fn resolved_window(w: WindowDefinition) -> EwwWindowDefinition {
    EwwWindowDefinition { name: w.name, widget: w.widget, span: w.span }
}

/// The window `w` shows a widget that `widgets` defines.
pub open spec fn window_resolves(widgets: Map<Seq<char>, WidgetDefinition>, w: WindowDefinition) -> bool {
    widgets.contains_key(w.widget@)
}

/// The error for a window `w` whose widget is not defined.
pub open spec fn widget_missing(w: WindowDefinition) -> ConfigError {
    ConfigError::WidgetNotFound { widget: w.widget, window: w.name }
}

/// Every window of `windows` shows a widget that `widgets` defines.
pub open spec fn all_windows_resolve(
    widgets: Map<Seq<char>, WidgetDefinition>,
    windows: Map<Seq<char>, WindowDefinition>,
) -> bool {
    forall|k: Seq<char>| #[trigger] windows.contains_key(k) ==> window_resolves(widgets, windows[k])
}

/// The initial value of a variable written in the document.
pub open spec fn var_initial_value(v: VarDefinition) -> DynVal {
    v.initial_value
}

impl EwwWindowDefinition {
    /// Resolves the window `window` against the widget definitions `widgets`.
    pub fn generate(widgets: &NameMap<WidgetDefinition>, window: WindowDefinition) -> (r: Result<
        EwwWindowDefinition,
        ConfigError,
    >)
        requires
            widgets.wf(),
        ensures
            window_resolves(widgets@, window) ==> r == Ok::<EwwWindowDefinition, ConfigError>(
                resolved_window(window),
            ),
            !window_resolves(widgets@, window) ==> r == Err::<EwwWindowDefinition, ConfigError>(
                widget_missing(window),
            ),
    {
        match widgets.get(&window.widget) {
            Some(_) => Ok(EwwWindowDefinition { name: window.name, widget: window.widget, span: window.span }),
            None => Err(ConfigError::WidgetNotFound { widget: window.widget, window: window.name }),
        }
    }
}

impl WindowDefinition {
    /// A copy of the definition, equal to it.
    pub fn duplicate(&self) -> (r: WindowDefinition)
        ensures
            r == *self,
    {
        WindowDefinition { name: self.name.clone(), widget: self.widget.clone(), span: self.span }
    }
}

/// The value a script variable starts at, given what its command computed: a listening
/// variable starts at its written initial value, a polling one at the value its command
/// gave, and has none when the command failed or did not run.
pub open spec fn script_initial(
    name: Seq<char>,
    var: ScriptVarDefinition,
    computed: Map<Seq<char>, Result<DynVal, String>>,
) -> Option<DynVal> {
    match var {
        ScriptVarDefinition::Listen { initial_value, .. } => Some(initial_value),
        ScriptVarDefinition::Poll { .. } => if computed.contains_key(name) && computed[name] is Ok {
            Some(computed[name]->Ok_0)
        } else {
            None
        },
    }
}

/// Every script variable of `script_vars` has a starting value.
pub open spec fn all_computed(
    script_vars: Map<Seq<char>, ScriptVarDefinition>,
    computed: Map<Seq<char>, Result<DynVal, String>>,
) -> bool {
    forall|k: Seq<char>| #[trigger] script_vars.contains_key(k) ==> script_initial(k, script_vars[k], computed) is Some
}

/// The starting values of the script variables, overlaid with those of the written
/// variables: on a shared name the written value stays.
pub open spec fn initial_state(
    script_vars: Map<Seq<char>, ScriptVarDefinition>,
    statics: Map<Seq<char>, DynVal>,
    computed: Map<Seq<char>, Result<DynVal, String>>,
) -> Map<Seq<char>, DynVal> {
    Map::new(
        |k: Seq<char>| script_vars.contains_key(k),
        |k: Seq<char>| script_initial(k, script_vars[k], computed)->Some_0,
    ).union_prefer_right(statics)
}

/// On a name that both a script variable and a written variable carry, the initial state
/// holds the written variable's value.
pub proof fn lemma_static_wins(
    script_vars: Map<Seq<char>, ScriptVarDefinition>,
    statics: Map<Seq<char>, DynVal>,
    computed: Map<Seq<char>, Result<DynVal, String>>,
    x: Seq<char>,
)
    requires
        statics.contains_key(x),
    ensures
        initial_state(script_vars, statics, computed).contains_key(x),
        initial_state(script_vars, statics, computed)[x] == statics[x],
{
}

/// The starting value of the script variable `var`, named `name`, given what the commands
/// computed, by name; see `script_initial`.
pub fn initial_value(
    name: &String,
    var: &ScriptVarDefinition,
    computed: &NameMap<Result<DynVal, String>>,
) -> (r: Result<DynVal, ConfigError>)
    requires
        computed.wf(),
    ensures
        match script_initial(name@, *var, computed@) {
            Some(v) => r == Ok::<DynVal, ConfigError>(v),
            None => r matches Err(ConfigError::ComputationFailed { var: n, .. }) && n@ == name@,
        },
{
    match var {
        ScriptVarDefinition::Listen { initial_value, .. } => Ok(initial_value.duplicate()),
        ScriptVarDefinition::Poll { .. } => match computed.get(name) {
            Some(Ok(v)) => Ok(v.duplicate()),
            Some(Err(m)) => Err(ConfigError::ComputationFailed { var: name.clone(), message: m.clone() }),
            None => Err(
                ConfigError::ComputationFailed {
                    var: name.clone(),
                    message: String::from_str("no value was computed"),
                },
            ),
        },
    }
}

/// Resolves each window against the widget definitions.
fn resolve_windows(widgets: &NameMap<WidgetDefinition>, windows: &NameMap<WindowDefinition>) -> (r: Result<
    NameMap<EwwWindowDefinition>,
    ConfigError,
>)
    requires
        widgets.wf(),
        windows.wf(),
    ensures
        all_windows_resolve(widgets@, windows@) ==> (r matches Ok(m) && m.wf() && m@ == windows@.map_values(
            |w: WindowDefinition| resolved_window(w),
        )),
        !all_windows_resolve(widgets@, windows@) ==> (r matches Err(e) && exists|k: Seq<char>|
            windows@.contains_key(k) && !window_resolves(widgets@, windows@[k]) && e == widget_missing(
                windows@[k],
            )),
{
    let mut out: NameMap<EwwWindowDefinition> = NameMap::new();
    let ghost items = windows.items();
    proof {
        windows.lemma_items();
    }
    let mut i: usize = 0;
    while i < windows.len()
        invariant
            widgets.wf(),
            windows.wf(),
            out.wf(),
            items == windows.items(),
            i <= items.len(),
            names_distinct(items),
            windows@ == entries_map(items),
            forall|j: int| 0 <= j < items.len() ==> #[trigger] windows@.contains_key(items[j].0@) && windows@[items[j].0@] == items[j].1,
            forall|k: Seq<char>| #[trigger] windows@.contains_key(k) ==> exists|j: int| 0 <= j < items.len() && items[j].0@ == k,
            forall|j: int| 0 <= j < i ==> window_resolves(widgets@, #[trigger] items[j].1),
            forall|k: Seq<char>| #[trigger] out@.contains_key(k) <==> exists|j: int| 0 <= j < i && items[j].0@ == k,
            forall|j: int| 0 <= j < i ==> #[trigger] out@[items[j].0@] == resolved_window(items[j].1),
        decreases items.len() - i,
    {
        let (k, w) = windows.entry_at(i);
        match EwwWindowDefinition::generate(widgets, w.duplicate()) {
            Ok(rw) => {
                let ghost before = out@;
                out.insert(k.clone(), rw);
                proof {
                    assert forall|kk: Seq<char>| #[trigger] out@.contains_key(kk) <==> exists|j: int| 0 <= j < i + 1 && items[j].0@ == kk by {
                        if before.contains_key(kk) {
                            let j = choose|j: int| 0 <= j < i && items[j].0@ == kk;
                            assert(0 <= j < i + 1 && items[j].0@ == kk);
                        }
                        if kk == items[i as int].0@ {
                            assert(0 <= i < i + 1 && items[i as int].0@ == kk);
                        }
                        if exists|j: int| 0 <= j < i + 1 && items[j].0@ == kk {
                            let j = choose|j: int| 0 <= j < i + 1 && items[j].0@ == kk;
                            if j < i {
                                assert(before.contains_key(kk));
                            }
                        }
                    }
                    assert forall|j: int| 0 <= j < i + 1 implies #[trigger] out@[items[j].0@] == resolved_window(items[j].1) by {
                        if j < i {
                            assert(items[j].0@ != items[i as int].0@);
                        }
                    }
                }
            },
            Err(e) => {
                proof {
                    assert(windows@.contains_key(items[i as int].0@));
                }
                return Err(e);
            },
        }
        i = i + 1;
    }
    proof {
        assert forall|k: Seq<char>| #[trigger] windows@.contains_key(k) implies window_resolves(widgets@, windows@[k]) by {
            let j = choose|j: int| 0 <= j < items.len() && items[j].0@ == k;
            assert(window_resolves(widgets@, items[j].1));
        }
        assert forall|k: Seq<char>| #[trigger] out@.contains_key(k) <==> windows@.contains_key(k) by {
            if out@.contains_key(k) {
                let j = choose|j: int| 0 <= j < i && items[j].0@ == k;
                assert(windows@.contains_key(items[j].0@));
            }
            if windows@.contains_key(k) {
                let j = choose|j: int| 0 <= j < items.len() && items[j].0@ == k;
                assert(out@.contains_key(items[j].0@));
            }
        }
        assert forall|k: Seq<char>| #[trigger] out@.contains_key(k) implies out@[k] == resolved_window(windows@[k]) by {
            let j = choose|j: int| 0 <= j < i && items[j].0@ == k;
            assert(out@[items[j].0@] == resolved_window(items[j].1));
        }
        assert(out@ =~= windows@.map_values(|w: WindowDefinition| resolved_window(w)));
    }
    Ok(out)
}

/// The initial value of each written variable.
fn initial_values(vars: &NameMap<VarDefinition>) -> (r: NameMap<DynVal>)
    requires
        vars.wf(),
    ensures
        r.wf(),
        r@ == vars@.map_values(|v: VarDefinition| var_initial_value(v)),
{
    let mut out: NameMap<DynVal> = NameMap::new();
    let ghost items = vars.items();
    proof {
        vars.lemma_items();
        assert(items.take(0) =~= Seq::<(String, VarDefinition)>::empty());
        assert(out@ =~= entries_map(items.take(0)).map_values(|v: VarDefinition| var_initial_value(v)));
    }
    let mut i: usize = 0;
    while i < vars.len()
        invariant
            vars.wf(),
            out.wf(),
            items == vars.items(),
            vars@ == entries_map(items),
            i <= items.len(),
            out@ == entries_map(items.take(i as int)).map_values(|v: VarDefinition| var_initial_value(v)),
        decreases items.len() - i,
    {
        let (k, v) = vars.entry_at(i);
        out.insert(k.clone(), v.initial_value.duplicate());
        proof {
            assert(items.take(i + 1).drop_last() =~= items.take(i as int));
            assert(out@ =~= entries_map(items.take(i + 1)).map_values(|v: VarDefinition| var_initial_value(v)));
        }
        i = i + 1;
    }
    proof {
        assert(items.take(i as int) =~= items);
    }
    out
}

/// The starting values of the script variables, as far as the first `n` entries of `items`
/// go.
pub open spec fn computed_prefix(
    items: Seq<(String, ScriptVarDefinition)>,
    n: int,
    computed: Map<Seq<char>, Result<DynVal, String>>,
) -> Map<Seq<char>, DynVal> {
    let m = entries_map(items.take(n));
    Map::new(|k: Seq<char>| m.contains_key(k), |k: Seq<char>| script_initial(k, m[k], computed)->Some_0)
}

/// Loaded configuration: widgets, resolved windows, initial values of the written
/// variables, and script variables, each by name.
pub struct EwwConfig {
    widgets: NameMap<WidgetDefinition>,
    windows: NameMap<EwwWindowDefinition>,
    initial_variables: NameMap<DynVal>,
    script_vars: NameMap<ScriptVarDefinition>,
}

/// `c` is what loading `config` with the built-in script variables `inbuilt` gives: the
/// widgets as defined, each window resolved, each written variable at its initial value,
/// and the script variables of the document together with the built-in ones, where a
/// built-in one replaces a written one of the same name.
pub open spec fn loaded_from(c: EwwConfig, config: Config, inbuilt: Map<Seq<char>, ScriptVarDefinition>) -> bool {
    &&& c.wf()
    &&& c.widgets_view() == config.widget_definitions@
    &&& c.windows_view() == config.window_definitions@.map_values(|w: WindowDefinition| resolved_window(w))
    &&& c.variables_view() == config.var_definitions@.map_values(|v: VarDefinition| var_initial_value(v))
    &&& c.script_vars_view() == config.script_vars@.union_prefer_right(inbuilt)
}

/// Loading the same definitions with the same built-in script variables twice gives the
/// same widgets, windows, variables and script variables.
pub proof fn lemma_load_deterministic(
    config: Config,
    inbuilt: Map<Seq<char>, ScriptVarDefinition>,
    c1: EwwConfig,
    c2: EwwConfig,
)
    requires
        loaded_from(c1, config, inbuilt),
        loaded_from(c2, config, inbuilt),
    ensures
        c1.widgets_view() == c2.widgets_view(),
        c1.windows_view() == c2.windows_view(),
        c1.variables_view() == c2.variables_view(),
        c1.script_vars_view() == c2.script_vars_view(),
{
}

impl EwwConfig {
    pub closed spec fn wf(&self) -> bool {
        &&& self.widgets.wf()
        &&& self.windows.wf()
        &&& self.initial_variables.wf()
        &&& self.script_vars.wf()
    }

    pub closed spec fn widgets_view(&self) -> Map<Seq<char>, WidgetDefinition> {
        self.widgets@
    }

    pub closed spec fn windows_view(&self) -> Map<Seq<char>, EwwWindowDefinition> {
        self.windows@
    }

    pub closed spec fn variables_view(&self) -> Map<Seq<char>, DynVal> {
        self.initial_variables@
    }

    pub closed spec fn script_vars_view(&self) -> Map<Seq<char>, ScriptVarDefinition> {
        self.script_vars@
    }

    /// Loads the definitions `config`, read from `path`, together with the built-in script
    /// variables `inbuilt`. It fails when `path` does not exist, and when a window shows a
    /// widget that is not defined.
    pub fn read_from_file(
        path: &String,
        path_exists: bool,
        config: Config,
        inbuilt: NameMap<ScriptVarDefinition>,
    ) -> (r: Result<EwwConfig, ConfigError>)
        requires
            config.wf(),
            inbuilt.wf(),
        ensures
            !path_exists ==> r == Err::<EwwConfig, ConfigError>(
                ConfigError::ConfigNotFound { path: *path, kind: NotFoundKind::MissingFile },
            ),
            path_exists && all_windows_resolve(config.widget_definitions@, config.window_definitions@)
                ==> (r matches Ok(c) && loaded_from(c, config, inbuilt@)),
            path_exists && !all_windows_resolve(config.widget_definitions@, config.window_definitions@)
                ==> (r matches Err(e) && exists|k: Seq<char>|
                config.window_definitions@.contains_key(k) && !window_resolves(
                config.widget_definitions@,
                config.window_definitions@[k],
            ) && e == widget_missing(config.window_definitions@[k])),
    {
        if !path_exists {
            return Err(ConfigError::ConfigNotFound { path: path.clone(), kind: NotFoundKind::MissingFile });
        }
        let Config { widget_definitions, window_definitions, var_definitions, script_vars } = config;
        let mut script_vars = script_vars;
        script_vars.extend(inbuilt);
        let windows = match resolve_windows(&widget_definitions, &window_definitions) {
            Ok(w) => w,
            Err(e) => return Err(e),
        };
        let initial_variables = initial_values(&var_definitions);
        Ok(EwwConfig { widgets: widget_definitions, windows, initial_variables, script_vars })
    }

    /// The initial state: each script variable at its starting value given what the
    /// commands `computed`, by name (see `script_initial`), then each written variable at its
    /// value, which wins on a shared name. It fails when a script variable has no starting
    /// value.
    pub fn generate_initial_state(&self, computed: &NameMap<Result<DynVal, String>>) -> (r: Result<
        NameMap<DynVal>,
        ConfigError,
    >)
        requires
            self.wf(),
            computed.wf(),
        ensures
            all_computed(self.script_vars_view(), computed@) ==> (r matches Ok(m) && m.wf() && m@
                == initial_state(self.script_vars_view(), self.variables_view(), computed@)),
            !all_computed(self.script_vars_view(), computed@) ==> (r matches Err(
                ConfigError::ComputationFailed { var, .. },
            ) && self.script_vars_view().contains_key(var@) && script_initial(
                var@,
                self.script_vars_view()[var@],
                computed@,
            ) is None),
    {
        let mut out: NameMap<DynVal> = NameMap::new();
        let ghost items = self.script_vars.items();
        proof {
            self.script_vars.lemma_items();
            assert(items.take(0) =~= Seq::<(String, ScriptVarDefinition)>::empty());
            assert(out@ =~= computed_prefix(items, 0, computed@));
        }
        let mut i: usize = 0;
        while i < self.script_vars.len()
            invariant
                self.wf(),
                computed.wf(),
                out.wf(),
                items == self.script_vars.items(),
                self.script_vars@ == entries_map(items),
                forall|j: int| 0 <= j < items.len() ==> #[trigger] self.script_vars@.contains_key(items[j].0@) && self.script_vars@[items[j].0@] == items[j].1,
                forall|k: Seq<char>| #[trigger] self.script_vars@.contains_key(k) ==> exists|j: int| 0 <= j < items.len() && items[j].0@ == k,
                i <= items.len(),
                forall|j: int| 0 <= j < i ==> (#[trigger] script_initial(items[j].0@, items[j].1, computed@)) is Some,
                out@ == computed_prefix(items, i as int, computed@),
            decreases items.len() - i,
        {
            let (k, var) = self.script_vars.entry_at(i);
            let v = match initial_value(k, var, computed) {
                Ok(v) => v,
                Err(e) => {
                    proof {
                        assert(self.script_vars@.contains_key(items[i as int].0@));
                    }
                    return Err(e);
                },
            };
            out.insert(k.clone(), v);
            proof {
                assert(items.take(i + 1).drop_last() =~= items.take(i as int));
                assert(out@ =~= computed_prefix(items, i + 1, computed@));
            }
            i = i + 1;
        }
        proof {
            assert(items.take(i as int) =~= items);
            assert forall|k: Seq<char>| #[trigger] self.script_vars@.contains_key(k) implies script_initial(k, self.script_vars@[k], computed@) is Some by {
                let j = choose|j: int| 0 <= j < items.len() && items[j].0@ == k;
                assert(script_initial(items[j].0@, items[j].1, computed@) is Some);
            }
        }
        let ghost base = out@;
        let ghost statics = self.initial_variables.items();
        proof {
            self.initial_variables.lemma_items();
            assert(statics.take(0) =~= Seq::<(String, DynVal)>::empty());
            assert(out@ =~= base.union_prefer_right(entries_map(statics.take(0))));
        }
        let mut i: usize = 0;
        while i < self.initial_variables.len()
            invariant
                self.wf(),
                out.wf(),
                statics == self.initial_variables.items(),
                self.initial_variables@ == entries_map(statics),
                i <= statics.len(),
                out@ == base.union_prefer_right(entries_map(statics.take(i as int))),
            decreases statics.len() - i,
        {
            let (k, v) = self.initial_variables.entry_at(i);
            out.insert(k.clone(), v.duplicate());
            proof {
                assert(statics.take(i + 1).drop_last() =~= statics.take(i as int));
                assert(out@ =~= base.union_prefer_right(entries_map(statics.take(i + 1))));
            }
            i = i + 1;
        }
        proof {
            assert(statics.take(i as int) =~= statics);
            assert(base =~= Map::new(
                |k: Seq<char>| self.script_vars@.contains_key(k),
                |k: Seq<char>| script_initial(k, self.script_vars@[k], computed@)->Some_0,
            ));
        }
        Ok(out)
    }

    pub fn get_windows(&self) -> (r: &NameMap<EwwWindowDefinition>)
        ensures
            r@ == self.windows_view(),
    {
        &self.windows
    }

    /// The window named `name`.
    pub fn get_window(&self, name: &String) -> (r: Result<&EwwWindowDefinition, ConfigError>)
        requires
            self.wf(),
        ensures
            self.windows_view().contains_key(name@) ==> (r matches Ok(w) && *w == self.windows_view()[name@]),
            !self.windows_view().contains_key(name@) ==> r == Err::<&EwwWindowDefinition, ConfigError>(
                ConfigError::WindowNotFound(*name),
            ),
    {
        match self.windows.get(name) {
            Some(w) => Ok(w),
            None => Err(ConfigError::WindowNotFound(name.clone())),
        }
    }

    /// The script variable named `name`.
    pub fn get_script_var(&self, name: &VarName) -> (r: Result<&ScriptVarDefinition, ConfigError>)
        requires
            self.wf(),
        ensures
            self.script_vars_view().contains_key(name.0@) ==> (r matches Ok(v) && *v == self.script_vars_view()[name.0@]),
            !self.script_vars_view().contains_key(name.0@) ==> r == Err::<&ScriptVarDefinition, ConfigError>(
                ConfigError::ScriptVarNotFound(name.0),
            ),
    {
        match self.script_vars.get(&name.0) {
            Some(v) => Ok(v),
            None => Err(ConfigError::ScriptVarNotFound(name.0.clone())),
        }
    }

    pub fn get_widget_definitions(&self) -> (r: &NameMap<WidgetDefinition>)
        ensures
            r@ == self.widgets_view(),
    {
        &self.widgets
    }
}

impl Default for EwwConfig {
    /// A configuration with no definitions.
    fn default() -> (r: EwwConfig)
        ensures
            r.wf(),
            r.widgets_view() == Map::<Seq<char>, WidgetDefinition>::empty(),
            r.windows_view() == Map::<Seq<char>, EwwWindowDefinition>::empty(),
            r.variables_view() == Map::<Seq<char>, DynVal>::empty(),
            r.script_vars_view() == Map::<Seq<char>, ScriptVarDefinition>::empty(),
    {
        EwwConfig {
            widgets: NameMap::new(),
            windows: NameMap::new(),
            initial_variables: NameMap::new(),
            script_vars: NameMap::new(),
        }
    }
}

} // verus!
