//! The `redact` function as a caller sees it: its name, its parameters, and
//! the two steps of compiling the filters once and resolving each value.

use crate::config::{list_models, parse_filters, ConfigModel, ConfigValue, FilterError};
use crate::engine::{value_redact, RedactionEngine};
use crate::filter::{FilterModel, FilterSet};
use crate::redactor::{Redactor, UnknownRedactor};
use crate::value::Value;
use vstd::prelude::*;

verus! {

/// The kinds of value that a parameter accepts.
#[derive(Debug, Clone, Copy, PartialEq, Eq, Structural)]
pub struct Kinds {
    pub string: bool,
    pub sequence: bool,
    pub mapping: bool,
}

/// One parameter of the function.
#[derive(Debug, Clone, Copy, PartialEq, Eq)]
pub struct Parameter {
    pub keyword: &'static str,
    pub kinds: Kinds,
    pub required: bool,
}

/// Why the arguments of the function are refused.
#[derive(Debug, Clone, Copy, PartialEq, Eq, Structural)]
pub enum CompileError {
    /// The list of filters is empty.
    NoFilters,
    /// A filter description is refused.
    Filter(FilterError),
    /// The redactor name is not known.
    Redactor(UnknownRedactor),
}

impl CompileError {
    /// The message of this error, as a text.
    pub open spec fn text(self) -> Seq<char> {
        match self {
            CompileError::NoFilters => "at least one filter must be given"@,
            CompileError::Filter(error) => error.text(),
            CompileError::Redactor(_) => "unknown redactor"@,
        }
    }

    /// A message that says why the arguments are refused.
    pub fn message(&self) -> (s: &'static str)
        ensures
            s@ == self.text(),
    {
        match self {
            CompileError::NoFilters => "at least one filter must be given",
            CompileError::Filter(error) => error.message(),
            CompileError::Redactor(error) => error.message(),
        }
    }
}

/// The redactor that an optional name stands for: `Full` where no name is
/// given.
pub open spec fn parse_redactor(name: Option<Seq<char>>) -> Option<Redactor> {
    match name {
        None => Some(Redactor::Full),
        Some(name) => Redactor::parse(name),
    }
}

/// What compiling the arguments gives: the filters and the redactor, or the
/// first error. An empty list of filters is refused; then the filters are
/// validated, and after them the redactor.
pub open spec fn parse_arguments(
    filters: Seq<ConfigModel>,
    redactor: Option<Seq<char>>,
) -> Result<(Seq<FilterModel>, Redactor), CompileError> {
    if filters.len() == 0 {
        Err(CompileError::NoFilters)
    } else {
        match parse_filters(filters) {
            Err(error) => Err(CompileError::Filter(error)),
            Ok(models) => match parse_redactor(redactor) {
                None => Err(CompileError::Redactor(UnknownRedactor)),
                Some(chosen) => Ok((models, chosen)),
            },
        }
    }
}

/// The `redact` function.
#[derive(Debug, Clone, Copy)]
pub struct Redact;

/// The compiled function: validated filters and the chosen redactor.
#[derive(Debug)]
pub struct RedactFn {
    filters: FilterSet,
    redactor: Redactor,
}

impl View for RedactFn {
    type V = (Seq<FilterModel>, Redactor);

    /// The models of the filters, and the redactor.
    closed spec fn view(&self) -> (Seq<FilterModel>, Redactor) {
        (self.filters@, self.redactor)
    }
}

impl Redact {
    /// The name under which the function is called.
    pub fn identifier(&self) -> (name: &'static str)
        ensures
            name@ == "redact"@,
    {
        "redact"
    }

    /// The parameters: the value to redact, the filters, and the optional
    /// redactor name.
    pub fn parameters(&self) -> (parameters: Vec<Parameter>)
        ensures
            parameters@.len() == 3,
            parameters@[0].keyword@ == "value"@,
            parameters@[0].kinds == (Kinds { string: true, sequence: true, mapping: true }),
            parameters@[0].required,
            parameters@[1].keyword@ == "filters"@,
            parameters@[1].kinds == (Kinds { string: false, sequence: true, mapping: false }),
            parameters@[1].required,
            parameters@[2].keyword@ == "redactor"@,
            parameters@[2].kinds == (Kinds { string: true, sequence: false, mapping: false }),
            !parameters@[2].required,
    {
        let mut parameters: Vec<Parameter> = Vec::new();
        parameters.push(
            Parameter {
                keyword: "value",
                kinds: Kinds { string: true, sequence: true, mapping: true },
                required: true,
            },
        );
        parameters.push(
            Parameter {
                keyword: "filters",
                kinds: Kinds { string: false, sequence: true, mapping: false },
                required: true,
            },
        );
        parameters.push(
            Parameter {
                keyword: "redactor",
                kinds: Kinds { string: true, sequence: false, mapping: false },
                required: false,
            },
        );
        parameters
    }

    /// Validates the filter descriptions and the redactor name. This is done
    /// once; the result is then used for every value.
    pub fn compile(&self, filters: Vec<ConfigValue>, redactor: Option<&str>) -> (r: Result<
        RedactFn,
        CompileError,
    >)
        ensures
            match parse_arguments(
                list_models(filters@),
                match redactor {
                    Some(name) => Some(name@),
                    None => None,
                },
            ) {
                Ok(parsed) => r matches Ok(compiled) && compiled@ == parsed,
                Err(error) => r matches Err(e) && e == error,
            },
    {
        if filters.len() == 0 {
            return Err(CompileError::NoFilters);
        }
        let filters = match FilterSet::new(filters) {
            Ok(filters) => filters,
            Err(error) => {
                return Err(CompileError::Filter(error));
            },
        };
        let redactor = match redactor {
            None => Redactor::default(),
            Some(name) => match Redactor::from_str(name) {
                Ok(redactor) => redactor,
                Err(error) => {
                    return Err(CompileError::Redactor(error));
                },
            },
        };
        Ok(RedactFn { filters, redactor })
    }
}

impl RedactFn {
    /// The validated filters.
    pub fn filters(&self) -> (filters: &FilterSet)
        ensures
            filters@ == self@.0,
    {
        &self.filters
    }

    /// The chosen redactor.
    pub fn redactor(&self) -> (redactor: Redactor)
        ensures
            redactor == self@.1,
    {
        self.redactor
    }

    /// Redacts one value with the compiled filters and redactor.
    pub fn resolve(&self, engine: &RedactionEngine, value: Value) -> (out: Value)
        ensures
            out@ == value_redact(value@, self@.0, self@.1),
    {
        engine.redact(value, &self.filters, &self.redactor)
    }
}

} // verus!
