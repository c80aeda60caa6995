//! The table function and its lifecycle: the host binds a call site, begins
//! an execution, scans until a batch comes back empty, and frees what it was
//! given.

use vstd::prelude::*;
use vstd::string::*;
use crate::bridge::{interpreter_version, VersionReport};
use crate::cstr::{find_nul, lemma_nul_position, nul_free, nul_position};
use crate::greeting::{compose, greeting};

verus! {

/// The name under which the table function is registered.
pub const EXTENSION_NAME: &'static str = "rusty_quack";

/// The types that the table function declares to the host.
#[derive(Debug, Clone, Copy, PartialEq, Eq, Structural)]
pub enum LogicalType {
    /// Text of any length.
    Varchar,
}

/// A column of the output.
#[derive(Debug, Clone, Copy)]
pub struct Column {
    pub name: &'static str,
    pub logical_type: LogicalType,
}

/// Why a call site could not be bound.
#[derive(Debug, Clone, Copy, PartialEq, Eq, Structural)]
pub enum BindError {
    /// The call site gives another number of parameters than the one declared.
    Arity { given: usize },
    /// The parameter holds a NUL, at this index of its UTF-8 encoding, and so
    /// cannot be kept as a zero-terminated string.
    InteriorNul { position: usize },
}

/// Why a scan was aborted.
#[derive(Debug, Clone, Copy, PartialEq, Eq, Structural)]
pub enum ScanError {
    /// The bind data holds no parameter any more.
    Released,
    /// The row's value holds a NUL, at this index of its UTF-8 encoding, and
    /// so cannot be handed to the host.
    InteriorNul { position: usize },
}

/// The state of a call site: the bound parameter, owned until `free`.
#[derive(Debug)]
pub struct HelloBindData {
    name: Option<String>,
}

/// The state of one execution: whether its one row has been produced.
#[derive(Debug)]
pub struct HelloInitData {
    done: bool,
}

/// What `bind` hands back: the output columns to declare and the state to keep.
#[derive(Debug)]
pub struct Binding {
    pub columns: Vec<Column>,
    pub data: HelloBindData,
}

/// The table function.
pub struct HelloVTab;

impl View for HelloBindData {
    type V = Option<Seq<char>>;

    /// The bound parameter, or `None` once it has been released.
    closed spec fn view(&self) -> Option<Seq<char>> {
        match self.name {
            Some(name) => Some(name@),
            None => None,
        }
    }
}

impl HelloBindData {
    /// A parameter that is held can be handed over as a zero-terminated string.
    #[verifier::type_invariant]
    spec fn valid(self) -> bool {
        self.name matches Some(name) ==> nul_free(name@)
    }

    /// Bind data that holds no parameter: the state of a call site before
    /// `bind` has kept one, and after `free`.
    pub fn unbound() -> (r: HelloBindData)
        ensures
            r@ is None,
    {
        HelloBindData { name: None }
    }

    /// The bound parameter, while it is held.
    pub fn name(&self) -> (r: Option<&str>)
        ensures
            match r {
                Some(name) => self@ == Some(name@) && nul_free(name@),
                None => self@ is None,
            },
    {
        proof {
            use_type_invariant(self);
        }
        match &self.name {
            Some(name) => Some(name.as_str()),
            None => None,
        }
    }

    /// Releases the parameter. On bind data that holds none this changes
    /// nothing, so the host may call it more than once.
    pub fn free(&mut self)
        ensures
            final(self)@ is None,
            old(self)@ is None ==> *final(self) == *old(self),
    {
        self.name = None;
    }
}

impl HelloInitData {
    /// Whether the row of this execution has been produced.
    pub closed spec fn exhausted(&self) -> bool {
        self.done
    }

    /// Whether the row of this execution has been produced.
    pub fn is_exhausted(&self) -> (r: bool)
        ensures
            r == self.exhausted(),
    {
        self.done
    }
}

/// The one column that is declared: `value`, of text.
pub open spec fn declared_columns(columns: Seq<Column>) -> bool {
    &&& columns.len() == 1
    &&& columns[0].name@ == "value"@
    &&& columns[0].logical_type == LogicalType::Varchar
}

/// What binding a call site with these parameters comes to: the parameter
/// that is kept, or the reason why there is none.
pub open spec fn bind_outcome(params: Seq<Seq<char>>) -> Result<Seq<char>, BindError> {
    if params.len() != 1 {
        Err(BindError::Arity { given: params.len() as usize })
    } else {
        match nul_position(params[0]) {
            Some(at) => Err(BindError::InteriorNul { position: at as usize }),
            None => Ok(params[0]),
        }
    }
}

/// What a scan yields: the rows of the batch, or the reason why it was
/// aborted. `name` is the view of the bind data, `exhausted` the state of the
/// cursor before the scan and `version` the text that the bridge gave.
pub open spec fn scan_outcome(name: Option<Seq<char>>, exhausted: bool, version: Seq<char>) -> Result<
    Seq<Seq<char>>,
    ScanError,
> {
    if exhausted {
        Ok(Seq::empty())
    } else {
        match name {
            None => Err(ScanError::Released),
            Some(name) => match nul_position(greeting(name, version)) {
                Some(at) => Err(ScanError::InteriorNul { position: at as usize }),
                None => Ok(seq![greeting(name, version)]),
            },
        }
    }
}

/// The rows that a result of a scan holds.
pub open spec fn rows(r: Result<Vec<String>, ScanError>) -> Result<Seq<Seq<char>>, ScanError> {
    match r {
        Ok(batch) => Ok(batch.deep_view()),
        Err(e) => Err(e),
    }
}

impl HelloVTab {
    /// The parameters that the table function declares: one, of text.
    pub fn parameters() -> (r: Option<Vec<LogicalType>>)
        ensures
            r matches Some(types) && types@ == seq![LogicalType::Varchar],
    {
        let mut types = Vec::new();
        types.push(LogicalType::Varchar);
        Some(types)
    }

    /// Binds a call site. With exactly one parameter that holds no NUL it
    /// declares the output column and keeps the parameter; with any other
    /// number of parameters, or with a NUL in the parameter, the call site is
    /// refused here, before any scan.
    pub fn bind(params: Vec<String>) -> (r: Result<Binding, BindError>)
        ensures
            match r {
                Ok(binding) => {
                    &&& binding.data@ matches Some(name)
                    &&& bind_outcome(params.deep_view()) == Ok::<Seq<char>, BindError>(name)
                    &&& declared_columns(binding.columns@)
                },
                Err(e) => bind_outcome(params.deep_view()) == Err::<Seq<char>, BindError>(e),
            },
    {
        let mut params = params;
        let given = params.len();
        if given != 1 {
            return Err(BindError::Arity { given });
        }
        let name = match params.pop() {
            Some(name) => name,
            None => { return Err(BindError::Arity { given }); },
        };
        proof {
            lemma_nul_position(name@);
        }
        match find_nul(name.as_str()) {
            Some(position) => Err(BindError::InteriorNul { position }),
            None => {
                let mut columns = Vec::new();
                columns.push(Column { name: "value", logical_type: LogicalType::Varchar });
                Ok(Binding { columns, data: HelloBindData { name: Some(name) } })
            },
        }
    }

    /// Begins an execution: a cursor that has produced nothing yet.
    pub fn init() -> (r: HelloInitData)
        ensures
            !r.exhausted(),
    {
        HelloInitData { done: false }
    }

    /// One scan, given the report of the bridge. An exhausted cursor yields
    /// an empty batch. A fresh one is exhausted by the scan and yields the
    /// one row, unless the bind data was released or the row's value holds a
    /// NUL.
    pub fn emit(bind: &HelloBindData, init: &mut HelloInitData, report: VersionReport) -> (r: Result<
        Vec<String>,
        ScanError,
    >)
        ensures
            final(init).exhausted(),
            rows(r) == scan_outcome(bind@, old(init).exhausted(), report.text()),
    {
        if init.done {
            let batch: Vec<String> = Vec::new();
            assert(batch.deep_view() =~= Seq::<Seq<char>>::empty());
            return Ok(batch);
        }
        init.done = true;
        let name = match bind.name() {
            Some(name) => name,
            None => { return Err(ScanError::Released); },
        };
        let version = report.into_text();
        let value = compose(name, version.as_str());
        match find_nul(value.as_str()) {
            Some(position) => Err(ScanError::InteriorNul { position }),
            None => {
                let mut batch = Vec::new();
                batch.push(value);
                assert(batch.deep_view() =~= seq![value@]);
                Ok(batch)
            },
        }
    }

    /// One scan. An exhausted cursor yields an empty batch and the bridge is
    /// not asked. A fresh cursor is exhausted by the scan; the bridge is
    /// asked for the version, and the scan yields what `emit` yields for its
    /// report.
    pub fn func(bind: &HelloBindData, init: &mut HelloInitData) -> (r: Result<Vec<String>, ScanError>)
        ensures
            final(init).exhausted(),
            old(init).exhausted() ==> rows(r) == Ok::<Seq<Seq<char>>, ScanError>(Seq::empty()),
            !old(init).exhausted() ==> exists|version: Seq<char>|
                rows(r) == #[trigger] scan_outcome(bind@, false, version),
    {
        if init.done {
            let batch: Vec<String> = Vec::new();
            assert(batch.deep_view() =~= Seq::<Seq<char>>::empty());
            return Ok(batch);
        }
        let report = interpreter_version();
        Self::emit(bind, init, report)
    }
}

} // verus!
