//! The namespace guard: which collection of entries a request addresses.
use vstd::prelude::*;
use vstd::string::*;

use crate::decimal::{decimal_text, to_decimal};
use crate::errors::{after_record, bad_request, DetailView, ErrorDetail, ErrorMessage};
use crate::outcome::GuardOutcome;

verus! {

/// The longest namespace accepted, in bytes of UTF-8.
pub const MAX_NAMESPACE_LEN: usize = 64;

/// A namespace that passed the guard: between 1 and 64 bytes long. Only the
/// guard makes one.
pub struct Namespace {
    value: String,
}

/// The length of a text in bytes of UTF-8.
pub open spec fn byte_len(s: Seq<char>) -> nat {
    vstd::utf8::encode_utf8(s).len()
}

pub open spec fn is_valid_namespace(s: Seq<char>) -> bool {
    1 <= byte_len(s) <= MAX_NAMESPACE_LEN
}

impl View for Namespace {
    type V = Seq<char>;

    closed spec fn view(&self) -> Seq<char> {
        self.value@
    }
}

impl Namespace {
    #[verifier::type_invariant]
    closed spec fn inv(&self) -> bool {
        is_valid_namespace(self.value@)
    }

    pub open spec fn wf(&self) -> bool {
        is_valid_namespace(self@)
    }

    /// The namespace's text.
    pub fn as_str(&self) -> (r: &str)
        ensures
            r@ == self@,
            self.wf(),
    {
        proof {
            use_type_invariant(self);
        }
        self.value.as_str()
    }
}

pub open spec fn opt_str(o: Option<&str>) -> Option<Seq<char>> {
    match o {
        Some(s) => Some(s@),
        None => None,
    }
}

/// The text the guard judges. A non-empty `X-Namespace` header is taken as it
/// is. Otherwise the `namespace` query argument: `Some(None)` stands for an
/// argument that is there but could not be decoded, and counts as empty, as
/// does a missing one.
pub open spec fn namespace_source(header: Option<Seq<char>>, query: Option<Option<Seq<char>>>) -> Seq<char> {
    if header is Some && header->Some_0.len() > 0 {
        header->Some_0
    } else {
        match query {
            Some(Some(q)) => q,
            _ => Seq::empty(),
        }
    }
}

pub open spec fn namespace_empty_message() -> Seq<char> {
    "You must provide 'X-Namespace' header or 'namespace' URL argument with request!"@
}

pub open spec fn namespace_long_message(len: nat) -> Seq<char> {
    "Provided namespace value is too big (max is 64 characters, received "@ + decimal_text(len)
        + ")!"@
}

/// The verdict on a namespace text: the text itself, or the error to report.
pub open spec fn judge_namespace(v: Seq<char>) -> Result<Seq<char>, DetailView> {
    if v.len() == 0 {
        Err(bad_request("err_namespace_empty"@, namespace_empty_message()))
    } else if byte_len(v) > MAX_NAMESPACE_LEN {
        Err(
            DetailView {
                code: "err_namespace_long"@,
                message: namespace_long_message(byte_len(v)),
                namespace: Some(v),
            },
        )
    } else {
        Ok(v)
    }
}

fn namespace_error(v: &str) -> (r: Option<ErrorDetail>)
    ensures
        match judge_namespace(v@) {
            Ok(_) => r is None,
            Err(d) => r is Some && r->Some_0@ == d,
        },
{
    let n = v.as_bytes().len();
    if v.is_empty() {
        Some(
            ErrorDetail::bad_request(
                "err_namespace_empty",
                String::from_str(
                    "You must provide 'X-Namespace' header or 'namespace' URL argument with request!",
                ),
            ),
        )
    } else if n > MAX_NAMESPACE_LEN {
        let mut message = String::from_str(
            "Provided namespace value is too big (max is 64 characters, received ",
        );
        let len = to_decimal(n as u64);
        message.append(len.as_str());
        message.append(")!");
        Some(
            ErrorDetail {
                code: String::from_str("err_namespace_long"),
                message,
                namespace: Some(String::from_str(v)),
            },
        )
    } else {
        None
    }
}

impl Namespace {
    /// Runs the namespace guard on the request's `X-Namespace` header and
    /// `namespace` query argument. An empty or over-long namespace is
    /// rejected and its error recorded in `ctx`; a good one is accepted as it
    /// came. The guard never forwards.
    pub fn from_request(header: Option<&str>, query: Option<Option<&str>>, ctx: &mut ErrorMessage) -> (r: GuardOutcome<Namespace>)
        ensures
            match judge_namespace(namespace_source(opt_str(header), match query {
                Some(q) => Some(opt_str(q)),
                None => None,
            })) {
                Ok(v) => r is Accept && r->Accept_0@ == v && r->Accept_0.wf() && final(ctx)@ == old(ctx)@,
                Err(d) => r is Reject && r->Reject_0@ == d && final(ctx)@ == after_record(old(ctx)@, d),
            },
    {
        let value: &str = match header {
            Some(h) if !h.is_empty() => h,
            _ => match query {
                Some(Some(q)) => q,
                _ => "",
            },
        };
        proof {
            reveal_strlit("");
        }
        match namespace_error(value) {
            Some(d) => {
                ctx.record(d.duplicate());
                GuardOutcome::Reject(d)
            },
            None => GuardOutcome::Accept(Namespace { value: String::from_str(value) }),
        }
    }
}

/// An empty namespace is rejected as empty; one over 64 bytes is rejected
/// as too long, with a message that gives its exact length and with the
/// value echoed back; any other is accepted unchanged.
pub proof fn lemma_namespace_rules(v: Seq<char>)
    ensures
        v.len() == 0 ==> judge_namespace(v) == Err::<Seq<char>, DetailView>(
            bad_request("err_namespace_empty"@, namespace_empty_message()),
        ),
        byte_len(v) > MAX_NAMESPACE_LEN ==> judge_namespace(v) is Err
            && judge_namespace(v)->Err_0.code == "err_namespace_long"@
            && judge_namespace(v)->Err_0.message == namespace_long_message(byte_len(v))
            && judge_namespace(v)->Err_0.namespace == Some(v),
        1 <= byte_len(v) <= MAX_NAMESPACE_LEN ==> judge_namespace(v) == Ok::<Seq<char>, DetailView>(v),
{
    if v.len() == 0 {
        assert(vstd::utf8::encode_utf8(v) =~= Seq::<u8>::empty());
    }
}

} // verus!
