//! The request handler: maps a request's query string to a reply and a
//! delay, with no failure path exposed to the caller.
//!
//! A `wait` parameter that parses as a non-negative 64-bit integer delays
//! the success reply by that many seconds; a malformed one yields an
//! immediate client-error reply; an absent one yields the success reply
//! with no delay.

use vstd::prelude::*;
use crate::digits::{
    dec_digit_val, dec_val, is_dec_digit, is_u64_numeral, parse_u64_numeral, unsigned_body,
};
use crate::query::{lookup_wait, wait_value};

verus! {

/// The status code of the success reply.
pub const STATUS_OK: u16 = 200;

/// The status code of the reply to a malformed `wait` value.
pub const STATUS_UNPROCESSABLE: u16 = 422;

/// What the handler decides for one request: a status, a body, and how many
/// seconds to suspend this one request before replying.
pub struct Reply {
    pub status: u16,
    pub body: String,
    pub delay_seconds: u64,
}

/// The body of the success reply.
pub open spec fn hello_body() -> Seq<char> {
    "Hello, World!!\n"@
}

/// The body of the reply to a malformed `wait` value.
pub open spec fn invalid_wait_body() -> Seq<char> {
    "\"wait\" query parameter must be unsigned integer for seconds"@
}

/// The query string of a request, `None` when the request has none.
pub open spec fn query_view(q: Option<&str>) -> Option<Seq<char>> {
    match q {
        Some(s) => Some(s@),
        None => None,
    }
}

/// A query string is acceptable when it carries no `wait` parameter, or one
/// that is a well-formed non-negative 64-bit numeral.
pub open spec fn query_acceptable(q: Option<Seq<char>>) -> bool {
    match q {
        None => true,
        Some(qs) => match wait_value(qs) {
            None => true,
            Some(w) => is_u64_numeral(w),
        },
    }
}

/// The seconds of delay a query string asks for: the value of a well-formed
/// `wait` parameter, and zero otherwise.
pub open spec fn requested_delay(q: Option<Seq<char>>) -> int {
    match q {
        None => 0,
        Some(qs) => match wait_value(qs) {
            None => 0,
            Some(w) => if is_u64_numeral(w) {
                dec_val(unsigned_body(w))
            } else {
                0
            },
        },
    }
}

/// Decides the reply for a request with query string `query`.
///
/// An acceptable query yields the success reply, delayed by exactly the
/// seconds its `wait` parameter asks for; a malformed `wait` value yields
/// the fixed client-error reply with no delay.
pub fn handle_request(query: Option<&str>) -> (r: Reply)
    ensures
        r.delay_seconds == requested_delay(query_view(query)),
        query_acceptable(query_view(query)) ==> r.status == STATUS_OK && r.body@ == hello_body(),
        !query_acceptable(query_view(query)) ==> r.status == STATUS_UNPROCESSABLE && r.body@
            == invalid_wait_body(),
{
    match query {
        None => Reply {
            status: STATUS_OK,
            body: String::from_str("Hello, World!!\n"),
            delay_seconds: 0,
        },
        Some(q) => {
            match lookup_wait(q) {
                None => Reply {
                    status: STATUS_OK,
                    body: String::from_str("Hello, World!!\n"),
                    delay_seconds: 0,
                },
                Some(w) => {
                    match parse_u64_numeral(w.as_str()) {
                        Some(seconds) => Reply {
                            status: STATUS_OK,
                            body: String::from_str("Hello, World!!\n"),
                            delay_seconds: seconds,
                        },
                        None => Reply {
                            status: STATUS_UNPROCESSABLE,
                            body: String::from_str(
                                "\"wait\" query parameter must be unsigned integer for seconds",
                            ),
                            delay_seconds: 0,
                        },
                    }
                },
            }
        },
    }
}

/// A request with no `wait` parameter, or with `wait=0`, is answered with
/// the success reply and no delay at all.
pub proof fn lemma_absent_or_zero_wait_is_immediate(q: Option<Seq<char>>)
    requires
        match q {
            None => true,
            Some(qs) => wait_value(qs) is None || wait_value(qs) == Some("0"@),
        },
    ensures
        query_acceptable(q),
        requested_delay(q) == 0,
{
    reveal_strlit("0");
    if let Some(qs) = q {
        if let Some(w) = wait_value(qs) {
            assert(w =~= seq!['0']);
            assert(unsigned_body(w) =~= w);
            assert(w[0] == '0');
            assert(is_dec_digit(w[0])) by {
                assert('0' as int == 48);
            }
            assert(forall|i: int| 0 <= i < w.len() ==> is_dec_digit(w[i]));
            assert(w.drop_last() =~= Seq::<char>::empty());
            assert(dec_val(w) == dec_val(w.drop_last()) * 10 + dec_digit_val(w.last()));
            assert(dec_digit_val('0') == 0);
            assert(is_u64_numeral(w));
            assert(dec_val(w) == 0);
        }
    }
}

} // verus!
