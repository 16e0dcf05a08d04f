use crate::ast::AstType;
use crate::span::Span;
use vstd::prelude::*;
use vstd::string::StringExecFns;

verus! {

/// Why a document tree could not be read as asked.
#[derive(Debug, Clone, Copy, PartialEq, Eq)]
pub enum AstError {
    /// A node stood where a node of another kind was expected: its span, the kind that
    /// was expected, and the kind that was found.
    WrongExprType(Option<Span>, AstType, AstType),
    /// The nodes ran out where one more was required.
    MissingNode(Option<Span>),
}

} // verus!

verus! {

/// How a configuration path failed to lead to a configuration.
#[derive(Debug, Clone, Copy, PartialEq, Eq, Structural)]
pub enum NotFoundKind {
    /// The main configuration file does not exist.
    MissingFile,
    /// The configuration directory does not exist.
    MissingDirectory,
    /// A file was given where the configuration directory is needed.
    FileGivenForDirectory,
}

/// Why a configuration could not be loaded, or a name in it could not be found.
#[derive(Debug, Clone, PartialEq, Eq)]
pub enum ConfigError {
    /// The configuration path `path` leads to no configuration, for the reason `kind`.
    ConfigNotFound { path: String, kind: NotFoundKind },
    /// The window `window` shows the widget `widget`, which is not defined.
    WidgetNotFound { widget: String, window: String },
    /// No window of that name is defined.
    WindowNotFound(String),
    /// No script variable of that name is defined.
    ScriptVarNotFound(String),
    /// Computing the initial value of the script variable `var` failed.
    ComputationFailed { var: String, message: String },
}

/// The message that describes a configuration error to a user.
pub open spec fn config_error_text(e: ConfigError) -> Seq<char> {
    match e {
        ConfigError::ConfigNotFound { path, kind } => match kind {
            NotFoundKind::MissingFile => "The configuration file `"@ + path@ + "` does not exist"@,
            NotFoundKind::MissingDirectory => "Configuration directory "@ + path@
                + " does not exist"@,
            NotFoundKind::FileGivenForDirectory =>
                "Please provide the path to the config directory, not a file within it: "@ + path@,
        },
        ConfigError::WidgetNotFound { widget, window } => "Unknown widget `"@ + widget@
            + "` referenced in window `"@ + window@ + "`"@,
        ConfigError::WindowNotFound(name) => "No window named '"@ + name@
            + "' exists in config.\nThis may also be caused by your config failing to load properly, please check for any other errors in that case."@,
        ConfigError::ScriptVarNotFound(name) => "No script var named '"@ + name@ + "' exists"@,
        ConfigError::ComputationFailed { var, message } => "Failed to compute the initial value of `"@
            + var@ + "`: "@ + message@,
    }
}

impl ConfigError {
    /// The message that describes the error to a user.
    pub fn message(&self) -> (r: String)
        ensures
            r@ == config_error_text(*self),
    {
        let mut out = String::new();
        match self {
            ConfigError::ConfigNotFound { path, kind } => match kind {
                NotFoundKind::MissingFile => {
                    out.append("The configuration file `");
                    out.append(path.as_str());
                    out.append("` does not exist");
                },
                NotFoundKind::MissingDirectory => {
                    out.append("Configuration directory ");
                    out.append(path.as_str());
                    out.append(" does not exist");
                },
                NotFoundKind::FileGivenForDirectory => {
                    out.append("Please provide the path to the config directory, not a file within it: ");
                    out.append(path.as_str());
                },
            },
            ConfigError::WidgetNotFound { widget, window } => {
                out.append("Unknown widget `");
                out.append(widget.as_str());
                out.append("` referenced in window `");
                out.append(window.as_str());
                out.append("`");
            },
            ConfigError::WindowNotFound(name) => {
                out.append("No window named '");
                out.append(name.as_str());
                out.append("' exists in config.\nThis may also be caused by your config failing to load properly, please check for any other errors in that case.");
            },
            ConfigError::ScriptVarNotFound(name) => {
                out.append("No script var named '");
                out.append(name.as_str());
                out.append("' exists");
            },
            ConfigError::ComputationFailed { var, message } => {
                out.append("Failed to compute the initial value of `");
                out.append(var.as_str());
                out.append("`: ");
                out.append(message.as_str());
            },
        }
        proof {
            assert(out@ =~= config_error_text(*self));
        }
        out
    }
}

} // verus!
