//! The page-size guard: how many entries one page of a listing holds.
use vstd::prelude::*;
use vstd::string::*;

use crate::decimal::{is_numeric, lemma_non_numeric_fails, lemma_parse_unsigned_bounded, int_error_message, int_error_text, parse_unsigned, parse_unsigned_text};
use crate::errors::{after_record, bad_request, DetailView, ErrorDetail, ErrorMessage};
use crate::namespace::opt_str;
use crate::outcome::GuardOutcome;

verus! {

/// The page size when the request names none.
pub const DEFAULT_PAGE_SIZE: u16 = 25;

/// A page size that passed the guard: never zero. Only the guard makes one.
pub struct PageSize {
    value: u16,
}

impl View for PageSize {
    type V = u16;

    closed spec fn view(&self) -> u16 {
        self.value
    }
}

impl PageSize {
    #[verifier::type_invariant]
    closed spec fn inv(&self) -> bool {
        self.value > 0
    }

    pub open spec fn wf(&self) -> bool {
        self@ > 0
    }

    /// The number of entries on a page.
    pub fn get(&self) -> (r: u16)
        ensures
            r == self@,
            self.wf(),
    {
        proof {
            use_type_invariant(self);
        }
        self.value
    }
}

pub open spec fn page_size_zero_message() -> Seq<char> {
    "You must provide non-zero value for page size request!"@
}

/// `origin` says where the text came from: "header" or "url argument".
pub open spec fn page_size_parse_message(origin: Seq<char>, why: Seq<char>) -> Seq<char> {
    "Couldn't parse page size from "@ + origin + " with error: '"@ + why + "'!"@
}

/// The verdict on one page-size text.
pub open spec fn judge_page_size_text(t: Seq<char>, origin: Seq<char>) -> Result<u16, DetailView> {
    match parse_unsigned(t, u16::MAX as nat) {
        Ok(n) => if n == 0 {
            Err(bad_request("err_page_size_zero"@, page_size_zero_message()))
        } else {
            Ok(n as u16)
        },
        Err(k) => Err(
            bad_request(
                "err_page_size_parsing"@,
                page_size_parse_message(origin, int_error_message(k)),
            ),
        ),
    }
}

/// The verdict on a request. A present `X-Page-Size` header decides alone,
/// even when it is malformed; only without it is the `page_size` query
/// argument read; without either the size is the default.
pub open spec fn judge_page_size(header: Option<Seq<char>>, query: Option<Seq<char>>) -> Result<u16, DetailView> {
    match header {
        Some(h) => judge_page_size_text(h, "header"@),
        None => match query {
            Some(q) => judge_page_size_text(q, "url argument"@),
            None => Ok(DEFAULT_PAGE_SIZE),
        },
    }
}

fn page_size_of(t: &str, origin: &str) -> (r: Result<u16, ErrorDetail>)
    ensures
        match judge_page_size_text(t@, origin@) {
            Ok(n) => r == Ok::<u16, ErrorDetail>(n),
            Err(d) => r is Err && r->Err_0@ == d,
        },
        r is Ok ==> r->Ok_0 > 0,
{
    proof {
        lemma_parse_unsigned_bounded(t@, u16::MAX as nat);
    }
    match parse_unsigned_text(t, 65535) {
        Ok(n) => if n == 0 {
            Err(
                ErrorDetail::bad_request(
                    "err_page_size_zero",
                    String::from_str("You must provide non-zero value for page size request!"),
                ),
            )
        } else {
            Ok(n as u16)
        },
        Err(k) => {
            let mut message = String::from_str("Couldn't parse page size from ");
            message.append(origin);
            message.append(" with error: '");
            message.append(int_error_text(k).as_str());
            message.append("'!");
            Err(ErrorDetail::bad_request("err_page_size_parsing", message))
        },
    }
}

impl PageSize {
    /// Runs the page-size guard on the request's `X-Page-Size` header and
    /// `page_size` query argument. A zero or unreadable size is rejected and
    /// its error recorded in `ctx`. The guard never forwards.
    pub fn from_request(header: Option<&str>, query: Option<&str>, ctx: &mut ErrorMessage) -> (r: GuardOutcome<PageSize>)
        ensures
            match judge_page_size(opt_str(header), opt_str(query)) {
                Ok(n) => r is Accept && r->Accept_0@ == n && r->Accept_0.wf() && final(ctx)@ == old(ctx)@,
                Err(d) => r is Reject && r->Reject_0@ == d && final(ctx)@ == after_record(old(ctx)@, d),
            },
    {
        let judged = match header {
            Some(h) => page_size_of(h, "header"),
            None => match query {
                Some(q) => page_size_of(q, "url argument"),
                None => Ok(DEFAULT_PAGE_SIZE),
            },
        };
        match judged {
            Ok(n) => GuardOutcome::Accept(PageSize { value: n }),
            Err(d) => {
                ctx.record(d.duplicate());
                GuardOutcome::Reject(d)
            },
        }
    }
}

/// Without header and query argument the page size is 25; a `0` from either
/// is rejected as zero; a text that is not numeric from either is rejected as
/// unparsable; and a present header decides whatever the query argument is.
pub proof fn lemma_page_size_rules(h: Seq<char>, q: Seq<char>, other: Option<Seq<char>>)
    ensures
        judge_page_size(None, None) == Ok::<u16, DetailView>(DEFAULT_PAGE_SIZE),
        judge_page_size(Some("0"@), other) is Err
            && judge_page_size(Some("0"@), other)->Err_0.code == "err_page_size_zero"@,
        judge_page_size(None, Some("0"@)) is Err
            && judge_page_size(None, Some("0"@))->Err_0.code == "err_page_size_zero"@,
        !is_numeric(h) ==> judge_page_size(Some(h), other) is Err
            && judge_page_size(Some(h), other)->Err_0.code == "err_page_size_parsing"@,
        !is_numeric(q) ==> judge_page_size(None, Some(q)) is Err
            && judge_page_size(None, Some(q))->Err_0.code == "err_page_size_parsing"@,
        judge_page_size(Some(h), other) == judge_page_size(Some(h), None),
{
    reveal_strlit("0");
    let zero = "0"@;
    assert(zero.drop_first().len() == 0);
    assert(parse_unsigned(zero, u16::MAX as nat) == Ok::<nat, crate::decimal::IntErrorKind>(0));
    lemma_non_numeric_fails(h, u16::MAX as nat);
    lemma_non_numeric_fails(q, u16::MAX as nat);
}

} // verus!
