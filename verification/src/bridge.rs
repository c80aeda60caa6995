//! The bridge to the embedded Python interpreter.
//!
//! The interpreter is reached through `pyo3`. Nothing can be said up front of
//! what it answers, so every trusted item here is without a postcondition and
//! the verified code around it holds for every answer.

use std::fmt::Write;
use vstd::prelude::*;
use vstd::string::*;
use crate::cstr::nul_free;

verus! {

/// `pyo3::Python`, the token that shows the interpreter lock is held.
#[verifier::external_type_specification]
#[verifier::external_body]
pub struct ExPython<'py>(pyo3::Python<'py>);

/// `pyo3::Bound`, a reference to a Python object that lives while the lock is held.
#[verifier::external_type_specification]
#[verifier::external_body]
#[verifier::reject_recursive_types(T)]
pub struct ExBound<'py, T>(pyo3::Bound<'py, T>);

/// `pyo3::types::PyModule`, a Python module object.
#[verifier::external_type_specification]
#[verifier::external_body]
pub struct ExPyModule(pyo3::types::PyModule);

/// `pyo3::PyAny`, any Python object.
#[verifier::external_type_specification]
#[verifier::external_body]
pub struct ExPyAny(pyo3::PyAny);

/// `pyo3::PyErr`, a raised Python exception.
#[verifier::external_type_specification]
#[verifier::external_body]
pub struct ExPyErr(pyo3::PyErr);

/// Trusted: `pyo3::Python::import`. Imports the module of the given name; the
/// outcome depends on the interpreter, so nothing is claimed of it.
#[verifier::external_body]
fn import_module<'py>(py: pyo3::Python<'py>, name: &str) -> Result<
    pyo3::Bound<'py, pyo3::types::PyModule>,
    pyo3::PyErr,
> {
    py.import(name)
}

/// Trusted: `pyo3::types::PyAnyMethods::getattr`. Reads the attribute of the
/// given name from a module; nothing is claimed of the outcome.
#[verifier::external_body]
fn module_attribute<'py>(module: &pyo3::Bound<'py, pyo3::types::PyModule>, name: &str) -> Result<
    pyo3::Bound<'py, pyo3::PyAny>,
    pyo3::PyErr,
> {
    pyo3::types::PyAnyMethods::getattr(module.as_any(), name)
}

/// Trusted: `pyo3::types::PyAnyMethods::extract` at `String`. Converts a
/// Python `str` object to text and fails on any other object; nothing is
/// claimed of the text.
#[verifier::external_body]
fn extract_text<'py>(value: &pyo3::Bound<'py, pyo3::PyAny>) -> Result<String, pyo3::PyErr> {
    pyo3::types::PyAnyMethods::extract(value)
}

/// The module of the interpreter that holds its version.
pub const VERSION_MODULE: &'static str = "sys";

/// The attribute of that module that is the version text.
pub const VERSION_ATTRIBUTE: &'static str = "version";

/// Reads the version attribute of the version module while the interpreter
/// lock is held. The first step that fails ends the lookup with its
/// exception.
fn read_version<'py>(py: pyo3::Python<'py>) -> Result<String, pyo3::PyErr> {
    let sys = match import_module(py, VERSION_MODULE) {
        Ok(module) => module,
        Err(e) => { return Err(e); },
    };
    let version = match module_attribute(&sys, VERSION_ATTRIBUTE) {
        Ok(value) => value,
        Err(e) => { return Err(e); },
    };
    extract_text(&version)
}

/// Trusted: `pyo3::Python::with_gil`. Takes the interpreter lock, runs the
/// lookup under it and releases the lock again.
#[verifier::external_body]
fn locked_lookup() -> Result<String, pyo3::PyErr> {
    pyo3::Python::with_gil(|py| read_version(py))
}

/// Trusted: the `Display` of `pyo3::PyErr`, written into a fresh string. It
/// names the exception's type and value; `None` where the exception cannot be
/// written. Nothing is claimed of the text.
#[verifier::external_body]
fn describe(error: &pyo3::PyErr) -> Option<String> {
    let mut text = String::new();
    match write!(text, "{}", error) {
        Ok(()) => Some(text),
        Err(_) => None,
    }
}

/// What a lookup of the interpreter's version came to. A failed lookup is
/// no error of the caller's: it is downgraded to a report that says so.
#[derive(Debug, PartialEq, Eq)]
pub enum VersionReport {
    /// The interpreter gave its version text.
    Version(String),
    /// The lookup failed; the text describes the failure.
    Degraded(String),
}

/// The text that stands in for the version after a failed lookup.
pub open spec fn fallback(detail: Seq<char>) -> Seq<char> {
    "Error getting Version: "@ + detail
}

impl VersionReport {
    /// The text that a report contributes to the output row.
    pub open spec fn text(&self) -> Seq<char> {
        match self {
            VersionReport::Version(version) => version@,
            VersionReport::Degraded(detail) => fallback(detail@),
        }
    }

    /// The text that the report contributes to the output row.
    pub fn into_text(self) -> (r: String)
        ensures
            r@ == self.text(),
    {
        match self {
            VersionReport::Version(version) => version,
            VersionReport::Degraded(detail) => {
                let mut text = String::from_str("Error getting Version: ");
                text.append(detail.as_str());
                text
            },
        }
    }

    /// The report for what a lookup came to: the version text where it was
    /// read, and else a degraded report with the description of the failure,
    /// or with an empty one where the failure could not be described.
    pub fn from_lookup(outcome: Result<String, Option<String>>) -> (r: VersionReport)
        ensures
            match outcome {
                Ok(version) => r == VersionReport::Version(version),
                Err(Some(detail)) => r == VersionReport::Degraded(detail),
                Err(None) => r matches VersionReport::Degraded(detail) && detail@.len() == 0,
            },
    {
        match outcome {
            Ok(version) => VersionReport::Version(version),
            Err(Some(detail)) => VersionReport::Degraded(detail),
            Err(None) => VersionReport::Degraded(String::new()),
        }
    }

    /// Whether the lookup failed.
    pub fn is_degraded(&self) -> (r: bool)
        ensures
            r == (self is Degraded),
    {
        match self {
            VersionReport::Version(_) => false,
            VersionReport::Degraded(_) => true,
        }
    }
}

/// A fallback text is never empty and ends with the description of the
/// failure.
pub proof fn lemma_fallback_is_not_empty(detail: Seq<char>)
    ensures
        fallback(detail).len() > 0,
        detail.is_suffix_of(fallback(detail)),
{
    reveal_strlit("Error getting Version: ");
}

/// The fixed part of a fallback text holds no NUL, so the text can be handed
/// to the host exactly if the description of the failure can.
pub proof fn lemma_fallback_nul_free(detail: Seq<char>)
    ensures
        nul_free(fallback(detail)) <==> nul_free(detail),
{
    reveal_strlit("Error getting Version: ");
    let fixed = "Error getting Version: "@;
    let text = fallback(detail);
    assert(!fixed.contains('\0'));
    if text.contains('\0') {
        let i = choose|i: int| 0 <= i < text.len() && text[i] == '\0';
        if i < fixed.len() {
            assert(fixed[i] == '\0');
        } else {
            assert(detail[i - fixed.len()] == '\0');
        }
    }
    if detail.contains('\0') {
        let i = choose|i: int| 0 <= i < detail.len() && detail[i] == '\0';
        assert(text[fixed.len() + i] == '\0');
    }
}

/// Asks the embedded interpreter for its version. The interpreter lock is
/// held for the lookup only. What comes back is the report that
/// `VersionReport::from_lookup` gives for the lookup's outcome, so no failure
/// of the interpreter reaches the caller as an error.
pub fn interpreter_version() -> VersionReport {
    let outcome = match locked_lookup() {
        Ok(version) => Ok(version),
        Err(error) => Err(describe(&error)),
    };
    VersionReport::from_lookup(outcome)
}

} // verus!
