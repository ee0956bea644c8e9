use vstd::prelude::*;

verus! {

/// A failure while turning a persisted configuration block into a backend
/// configuration: the block named an unknown backend, carried a field the
/// selected kind does not recognize, repeated or omitted a field, or held an
/// endpoint that is not a valid absolute URL.
#[derive(Debug, Clone, PartialEq, Eq)]
pub enum ConfigError {
    UnknownBackend(String),
    UnknownField(String),
    DuplicateField(String),
    MissingField(String),
    InvalidUrl(String),
}

/// A failure while looking a name up: no server block is defined at all, or
/// the requested server name has no block.
#[derive(Debug, Clone, PartialEq, Eq)]
pub enum LookupError {
    NoServers,
    UnknownServer(String),
}

/// A true flag-parse failure in a backend's override grammar. A help request
/// is not an error and is reported through `ApplyOutcome` instead.
#[derive(Debug, Clone, PartialEq, Eq)]
pub enum ArgError {
    UnknownFlag(String),
    MissingValue(String),
    InvalidUrl(String),
}

/// The mathematical shape of an `ArgError`.
pub enum ArgErrView {
    UnknownFlag(Seq<char>),
    MissingValue(Seq<char>),
    InvalidUrl(Seq<char>),
}

impl View for ArgError {
    type V = ArgErrView;

    open spec fn view(&self) -> ArgErrView {
        match self {
            ArgError::UnknownFlag(f) => ArgErrView::UnknownFlag(f@),
            ArgError::MissingValue(f) => ArgErrView::MissingValue(f@),
            ArgError::InvalidUrl(v) => ArgErrView::InvalidUrl(v@),
        }
    }
}

/// A failure while interpreting the remote service's answer: a body that does
/// not carry what the protocol promises, or an answer that explicitly flags
/// failure. Transport failures never reach this library; its callers report
/// them on their own.
#[derive(Debug, Clone, PartialEq, Eq)]
pub enum SubmitError {
    InvalidResponse(String),
    ApiFailure(String),
}

/// The mathematical shape of a `SubmitError`.
pub enum SubErrView {
    InvalidResponse(Seq<char>),
    ApiFailure(Seq<char>),
}

impl View for SubmitError {
    type V = SubErrView;

    open spec fn view(&self) -> SubErrView {
        match self {
            SubmitError::InvalidResponse(b) => SubErrView::InvalidResponse(b@),
            SubmitError::ApiFailure(m) => SubErrView::ApiFailure(m@),
        }
    }
}

impl ConfigError {
    pub open spec fn spec_message(self) -> Seq<char> {
        match self {
            ConfigError::UnknownBackend(b) => "unknown backend: "@ + b@,
            ConfigError::UnknownField(f) => "unknown field: "@ + f@,
            ConfigError::DuplicateField(f) => "duplicate field: "@ + f@,
            ConfigError::MissingField(f) => "missing field: "@ + f@,
            ConfigError::InvalidUrl(u) => "could not parse as a url: "@ + u@,
        }
    }

    pub fn message(&self) -> (r: String)
        ensures
            r@ == self.spec_message(),
    {
        match self {
            ConfigError::UnknownBackend(b) => String::from_str("unknown backend: ").concat(b.as_str()),
            ConfigError::UnknownField(f) => String::from_str("unknown field: ").concat(f.as_str()),
            ConfigError::DuplicateField(f) => String::from_str("duplicate field: ").concat(f.as_str()),
            ConfigError::MissingField(f) => String::from_str("missing field: ").concat(f.as_str()),
            ConfigError::InvalidUrl(u) => String::from_str("could not parse as a url: ").concat(u.as_str()),
        }
    }
}

impl LookupError {
    pub open spec fn spec_message(self) -> Seq<char> {
        match self {
            LookupError::NoServers => "no servers defined in configuration"@,
            LookupError::UnknownServer(s) => "no corresponding server config for "@ + s@,
        }
    }

    pub fn message(&self) -> (r: String)
        ensures
            r@ == self.spec_message(),
    {
        match self {
            LookupError::NoServers => String::from_str("no servers defined in configuration"),
            LookupError::UnknownServer(s) => String::from_str("no corresponding server config for ").concat(s.as_str()),
        }
    }
}

impl ArgError {
    pub open spec fn spec_message(self) -> Seq<char> {
        match self {
            ArgError::UnknownFlag(f) => "unexpected argument: "@ + f@,
            ArgError::MissingValue(f) => "a value is required for "@ + f@,
            ArgError::InvalidUrl(v) => "could not parse as a url: "@ + v@,
        }
    }

    pub fn message(&self) -> (r: String)
        ensures
            r@ == self.spec_message(),
    {
        match self {
            ArgError::UnknownFlag(f) => String::from_str("unexpected argument: ").concat(f.as_str()),
            ArgError::MissingValue(f) => String::from_str("a value is required for ").concat(f.as_str()),
            ArgError::InvalidUrl(v) => String::from_str("could not parse as a url: ").concat(v.as_str()),
        }
    }
}

impl SubmitError {
    pub open spec fn spec_message(self) -> Seq<char> {
        match self {
            SubmitError::InvalidResponse(b) => "could not interpret the response: "@ + b@,
            SubmitError::ApiFailure(m) => "api returned failure: "@ + m@,
        }
    }

    pub fn message(&self) -> (r: String)
        ensures
            r@ == self.spec_message(),
    {
        match self {
            SubmitError::InvalidResponse(b) => String::from_str("could not interpret the response: ").concat(b.as_str()),
            SubmitError::ApiFailure(m) => String::from_str("api returned failure: ").concat(m.as_str()),
        }
    }
}

} // verus!
