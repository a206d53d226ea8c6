//! The structured error of a request and the slot that keeps the first one.
use vstd::prelude::*;
use vstd::string::*;

verus! {

/// One structured failure of a request, reported with status 400: a
/// machine-readable code, a message for people, and the offending namespace
/// where the caller needs it echoed back.
pub struct ErrorDetail {
    pub code: String,
    pub message: String,
    pub namespace: Option<String>,
}

pub struct DetailView {
    pub code: Seq<char>,
    pub message: Seq<char>,
    pub namespace: Option<Seq<char>>,
}

pub open spec fn opt_view(s: Option<String>) -> Option<Seq<char>> {
    match s {
        Some(v) => Some(v@),
        None => None,
    }
}

impl View for ErrorDetail {
    type V = DetailView;

    open spec fn view(&self) -> DetailView {
        DetailView {
            code: self.code@,
            message: self.message@,
            namespace: opt_view(self.namespace),
        }
    }
}

/// A detail with no namespace attached.
pub open spec fn bad_request(code: Seq<char>, message: Seq<char>) -> DetailView {
    DetailView { code, message, namespace: None }
}

impl ErrorDetail {
    /// A detail with the given code and message.
    pub fn bad_request(code: &str, message: String) -> (r: ErrorDetail)
        ensures
            r@ == bad_request(code@, message@),
    {
        ErrorDetail {
            code: String::from_str(code),
            message,
            namespace: None,
        }
    }

    /// An equal detail.
    pub fn duplicate(&self) -> (r: ErrorDetail)
        ensures
            r@ == self@,
    {
        ErrorDetail {
            code: self.code.clone(),
            message: self.message.clone(),
            namespace: match &self.namespace {
                Some(n) => Some(n.clone()),
                None => None,
            },
        }
    }
}

/// The per-request error slot. It holds at most one detail; once filled it
/// keeps its first detail for the rest of the request.
pub struct ErrorMessage(pub Option<ErrorDetail>);

impl View for ErrorMessage {
    type V = Option<DetailView>;

    open spec fn view(&self) -> Option<DetailView> {
        match self.0 {
            Some(d) => Some(d@),
            None => None,
        }
    }
}

/// The slot after recording `d`: the first detail wins.
pub open spec fn after_record(slot: Option<DetailView>, d: DetailView) -> Option<DetailView> {
    match slot {
        Some(first) => Some(first),
        None => Some(d),
    }
}

impl ErrorMessage {
    /// An empty slot, as each request starts with.
    pub fn new() -> (r: ErrorMessage)
        ensures
            r@ is None,
    {
        ErrorMessage(None)
    }

    /// Stores `detail` if nothing was stored before; otherwise keeps the
    /// earlier detail and drops this one.
    pub fn record(&mut self, detail: ErrorDetail)
        ensures
            final(self)@ == after_record(old(self)@, detail@),
    {
        if self.0.is_none() {
            self.0 = Some(detail);
        }
    }

    /// The stored detail, if any was recorded.
    pub fn read(&self) -> (r: Option<&ErrorDetail>)
        ensures
            match r {
                Some(d) => self@ == Some(d@),
                None => self@ is None,
            },
    {
        match &self.0 {
            Some(d) => Some(d),
            None => None,
        }
    }
}

} // verus!
