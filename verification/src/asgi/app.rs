//! Which Python object is the application, and what is reported when it cannot be loaded.

use vstd::prelude::*;

use crate::text::{cut, join, joined, quote, quoted, split_once, views};

verus! {

/// Attribute looked up when a specifier names none.
pub const DEFAULT_ATTR: &'static str = "app";

/// Most bytes of a request body.
pub const DEFAULT_BODY_LIMIT: usize = 10485760;

/// Why an application could not be loaded.
#[allow(inconsistent_fields)]
#[derive(Debug)]
pub enum AppLoadError {
    /// The specifier is not of the form `module:attr` or `module`.
    InvalidSpecifier {
        /// The specifier.
        specifier: String,
    },
    /// The module could not be imported.
    ImportFailed {
        /// The module.
        module: String,
        /// The Python exception as text.
        source: String,
    },
    /// The module lacks the attribute.
    MissingAttribute {
        /// The module.
        module: String,
        /// The attribute.
        attr: String,
    },
    /// The attribute cannot be called.
    NotCallable {
        /// The module.
        module: String,
        /// The attribute.
        attr: String,
    },
}

impl AppLoadError {
    /// The text shown to the user.
    pub open spec fn shown(self) -> Seq<char> {
        match self {
            AppLoadError::InvalidSpecifier { specifier } => "invalid specifier "@ + quoted(
                specifier@,
            ) + ": expected \"module:attr\" or \"module\""@,
            AppLoadError::ImportFailed { module, source } => "failed to import module "@ + quoted(
                module@,
            ) + ": "@ + source@,
            AppLoadError::MissingAttribute { module, attr } => "module "@ + quoted(module@)
                + " has no attribute "@ + quoted(attr@),
            AppLoadError::NotCallable { module, attr } => module@ + ":"@ + attr@
                + " is not callable"@,
        }
    }

    /// Writes the text shown to the user.
    pub fn message(&self) -> (out: String)
        ensures
            out@ == self.shown(),
    {
        match self {
            AppLoadError::InvalidSpecifier { specifier } => {
                let mut s = String::from_str("invalid specifier ");
                s.append(&quote(specifier));
                s.append(": expected \"module:attr\" or \"module\"");
                s
            },
            AppLoadError::ImportFailed { module, source } => {
                let mut s = String::from_str("failed to import module ");
                s.append(&quote(module));
                s.append(": ");
                s.append(source);
                s
            },
            AppLoadError::MissingAttribute { module, attr } => {
                let mut s = String::from_str("module ");
                s.append(&quote(module));
                s.append(" has no attribute ");
                s.append(&quote(attr));
                s
            },
            AppLoadError::NotCallable { module, attr } => {
                let mut s = module.clone();
                s.append(":");
                s.append(attr);
                s.append(" is not callable");
                s
            },
        }
    }
}

/// The module and attribute that a specifier names: the parts around the first colon, both
/// not empty, or the whole text and the attribute `app` when there is no colon.
pub open spec fn specifier_parts(s: Seq<char>) -> Option<(Seq<char>, Seq<char>)> {
    if s.len() == 0 {
        None
    } else {
        match cut(s, ':') {
            Some((module, attr)) => if module.len() == 0 || attr.len() == 0 {
                None
            } else {
                Some((module, attr))
            },
            None => Some((s, "app"@)),
        }
    }
}

/// Splits a specifier into module and attribute.
pub fn parse_specifier(specifier: &str) -> (out: Result<(String, String), AppLoadError>)
    ensures
        match out {
            Ok((m, a)) => specifier_parts(specifier@) == Some((m@, a@)),
            Err(AppLoadError::InvalidSpecifier { specifier: s }) => {
                specifier_parts(specifier@) is None && s@ == specifier@
            },
            Err(_) => false,
        },
{
    if specifier.is_empty() {
        return Err(AppLoadError::InvalidSpecifier { specifier: specifier.to_owned() });
    }
    match split_once(specifier, ':') {
        Some((module, attr)) => if module.as_str().is_empty() || attr.as_str().is_empty() {
            Err(AppLoadError::InvalidSpecifier { specifier: specifier.to_owned() })
        } else {
            Ok((module, attr))
        },
        None => Ok((specifier.to_owned(), String::from_str("app"))),
    }
}

/// What Python found under a module and attribute.
pub enum Found {
    /// `importlib` itself is missing; the exception as text.
    NoImportlib(String),
    /// The module cannot be imported; the exception as text.
    NoModule(String),
    /// The module lacks the attribute.
    NoAttribute,
    /// The attribute cannot be called.
    NotCallable,
    /// The attribute can be called.
    Callable,
}

/// An application named by a specifier.
pub struct ModuleImport {
    /// The specifier.
    pub specifier: String,
    /// Whether error responses show tracebacks.
    pub dev_mode: bool,
}

impl ModuleImport {
    /// A loader for the application that `specifier` names.
    pub fn new(specifier: &str, dev_mode: bool) -> (out: ModuleImport)
        ensures
            out.specifier@ == specifier@,
            out.dev_mode == dev_mode,
    {
        ModuleImport { specifier: specifier.to_owned(), dev_mode }
    }

    /// Whether the application can be used, given what Python found. A bad specifier is
    /// reported whatever was found.
    pub fn load_callable(&self, found: Found) -> (out: Result<(), AppLoadError>)
        ensures
            match specifier_parts(self.specifier@) {
                None => out matches Err(AppLoadError::InvalidSpecifier { specifier }) && specifier@
                    == self.specifier@,
                Some((m, a)) => match found {
                    Found::NoImportlib(e) => out matches Err(
                        AppLoadError::ImportFailed { module, source },
                    ) && module@ == "importlib"@ && source == e,
                    Found::NoModule(e) => out matches Err(
                        AppLoadError::ImportFailed { module, source },
                    ) && module@ == m && source == e,
                    Found::NoAttribute => out matches Err(
                        AppLoadError::MissingAttribute { module, attr },
                    ) && module@ == m && attr@ == a,
                    Found::NotCallable => out matches Err(
                        AppLoadError::NotCallable { module, attr },
                    ) && module@ == m && attr@ == a,
                    Found::Callable => out is Ok,
                },
            },
    {
        let (module, attr) = match parse_specifier(&self.specifier) {
            Ok(p) => p,
            Err(e) => return Err(e),
        };
        match found {
            Found::NoImportlib(source) => Err(
                AppLoadError::ImportFailed { module: String::from_str("importlib"), source },
            ),
            Found::NoModule(source) => Err(AppLoadError::ImportFailed { module, source }),
            Found::NoAttribute => Err(AppLoadError::MissingAttribute { module, attr }),
            Found::NotCallable => Err(AppLoadError::NotCallable { module, attr }),
            Found::Callable => Ok(()),
        }
    }

    /// The error that a failed step of building the dispatch is reported as.
    pub fn build(&self, step: BuildStep, source: String) -> (out: AppLoadError)
        ensures
            out matches AppLoadError::ImportFailed { module, source: s } && s == source
                && module@ == (match step {
                BuildStep::Queue => "RequestQueue"@,
                BuildStep::DispatchModule => "apx._dispatch"@,
                BuildStep::InstallDispatch => "install_dispatch"@,
            }),
    {
        let module = match step {
            BuildStep::Queue => String::from_str("RequestQueue"),
            BuildStep::DispatchModule => String::from_str("apx._dispatch"),
            BuildStep::InstallDispatch => String::from_str("install_dispatch"),
        };
        AppLoadError::ImportFailed { module, source }
    }
}

/// A step of building the dispatch after the application was found.
#[derive(Clone, Copy, PartialEq, Eq, Structural, Debug)]
pub enum BuildStep {
    /// Creating the request queue.
    Queue,
    /// Importing the dispatch module.
    DispatchModule,
    /// Installing the dispatch on the event loop.
    InstallDispatch,
}

/// The text of a Python exception: the lines of its traceback, or its short text when the
/// traceback could not be formatted.
pub fn format_pyerr(lines: Option<Vec<String>>, short: String) -> (out: String)
    ensures
        match lines {
            Some(v) => out@ == joined(views(v@), Seq::<char>::empty()),
            None => out@ == short@,
        },
{
    match lines {
        Some(v) => {
            let empty = String::new();
            join(&v, &empty)
        },
        None => short,
    }
}

/// A specifier names a module and an attribute, with a colon between them; one without a colon names
/// a module whose attribute is `app`. Neither of the two can be empty.
pub proof fn specifiers_name_module_and_attribute(module: Seq<char>, attr: Seq<char>)
    requires
        !module.contains(':'),
    ensures
        module.len() > 0 && attr.len() > 0 ==> specifier_parts(module + seq![':'] + attr) == Some(
            (module, attr),
        ),
        module.len() > 0 ==> specifier_parts(module) == Some((module, "app"@)),
        attr.len() > 0 ==> specifier_parts(seq![':'] + attr) is None,
        specifier_parts(module + seq![':']) is None,
        specifier_parts(Seq::empty()) is None,
{
    crate::text::cuts_are_at_the_first(module, ':', attr);
    crate::text::cuts_are_at_the_first(Seq::empty(), ':', attr);
    crate::text::cuts_are_at_the_first(module, ':', Seq::empty());
    assert(Seq::<char>::empty() + seq![':'] + attr =~= seq![':'] + attr);
    assert(module + seq![':'] + Seq::<char>::empty() =~= module + seq![':']);
}

/// What went wrong is told with the specifier, or with the module and the attribute.
pub proof fn load_errors_are_told(module: String, attr: String)
    ensures
        (AppLoadError::InvalidSpecifier { specifier: module }).shown() == "invalid specifier "@
            + quoted(module@) + ": expected \"module:attr\" or \"module\""@,
        (AppLoadError::ImportFailed { module, source: attr }).shown() == "failed to import module "@
            + quoted(module@) + ": "@ + attr@,
        (AppLoadError::MissingAttribute { module, attr }).shown() == "module "@ + quoted(module@)
            + " has no attribute "@ + quoted(attr@),
        (AppLoadError::NotCallable { module, attr }).shown() == module@ + ":"@ + attr@
            + " is not callable"@,
{
}

} // verus!
