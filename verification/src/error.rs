//! Uniform error representation with per-query position attribution.
//!
//! Every failure, whatever collaborator produced it, is converted to a
//! `ResponseError` (a status classification plus a message) and paired with
//! the 0-based position of the query that caused it before it leaves the
//! dispatcher. The outward-facing message is rewritten to name that position.

use vstd::prelude::*;
use vstd::string::StringExecFns;

verus! {

/// Status classification of a client-visible error.
pub const BAD_REQUEST: u16 = 400;

/// Status classification of an authorization denial.
pub const FORBIDDEN: u16 = 403;

/// Status classification of a path-level "resource not found".
pub const NOT_FOUND: u16 = 404;

/// Status classification of a selected but unimplemented feature.
pub const NOT_IMPLEMENTED: u16 = 501;

/// A client-visible error: a status classification and a message.
#[derive(Debug)]
pub struct ResponseError {
    pub code: u16,
    pub message: String,
}

impl ResponseError {
    /// The error returned when the caller's key does not grant access to the
    /// index a query targets.
    pub fn invalid_token() -> (r: ResponseError)
        ensures
            r.code == FORBIDDEN,
            r.message@ == "The provided API key is invalid."@,
    {
        ResponseError { code: FORBIDDEN, message: "The provided API key is invalid.".to_owned() }
    }

    /// The error returned when a selected merge strategy is not implemented.
    pub fn unimplemented_merge_strategy() -> (r: ResponseError)
        ensures
            r.code == NOT_IMPLEMENTED,
            r.message@ == "The requested merge strategy is not implemented."@,
    {
        ResponseError {
            code: NOT_IMPLEMENTED,
            message: "The requested merge strategy is not implemented.".to_owned(),
        }
    }

    /// An exact copy of the error.
    pub fn duplicate(&self) -> (r: ResponseError)
        ensures
            r.code == self.code,
            r.message == self.message,
    {
        ResponseError { code: self.code, message: self.message.clone() }
    }
}

/// Reclassifies an index-resolution failure as a generic client error. The
/// index identifier came from the request body, not from the URL path, so a
/// missing index must not surface as a path-level "not found": whatever the
/// collaborator reported, the status becomes `BAD_REQUEST`; the message is
/// kept.
pub fn remap_index_not_found(err: ResponseError) -> (r: ResponseError)
    ensures
        r.code == BAD_REQUEST,
        r.message == err.message,
{
    ResponseError { code: BAD_REQUEST, message: err.message }
}

/// The character for one decimal digit.
pub open spec fn digit_char(d: nat) -> char {
    if d == 0 {
        '0'
    } else if d == 1 {
        '1'
    } else if d == 2 {
        '2'
    } else if d == 3 {
        '3'
    } else if d == 4 {
        '4'
    } else if d == 5 {
        '5'
    } else if d == 6 {
        '6'
    } else if d == 7 {
        '7'
    } else if d == 8 {
        '8'
    } else {
        '9'
    }
}

/// The decimal digit characters of `n`, most significant first, without
/// leading zeros (except for `n == 0` itself).
pub open spec fn spec_decimal(n: nat) -> Seq<char>
    decreases n,
{
    if n < 10 {
        seq![digit_char(n)]
    } else {
        spec_decimal(n / 10).push(digit_char(n % 10))
    }
}

/// One decimal digit as a string slice.
fn digit_str(d: usize) -> (r: &'static str)
    requires
        d < 10,
    ensures
        r@ == seq![digit_char(d as nat)],
{
    let r: &'static str = match d {
        0 => "0",
        1 => "1",
        2 => "2",
        3 => "3",
        4 => "4",
        5 => "5",
        6 => "6",
        7 => "7",
        8 => "8",
        _ => "9",
    };
    proof {
        reveal_strlit("0");
        reveal_strlit("1");
        reveal_strlit("2");
        reveal_strlit("3");
        reveal_strlit("4");
        reveal_strlit("5");
        reveal_strlit("6");
        reveal_strlit("7");
        reveal_strlit("8");
        reveal_strlit("9");
        assert(r@ =~= seq![digit_char(d as nat)]);
    }
    r
}

/// Appends the decimal rendering of `n` to `out`.
pub fn push_decimal(n: usize, out: &mut String)
    ensures
        final(out)@ == old(out)@ + spec_decimal(n as nat),
    decreases n,
{
    if n >= 10 {
        push_decimal(n / 10, out);
    }
    let d = digit_str(n % 10);
    out.append(d);
    proof {
        if n < 10 {
            assert(old(out)@ + seq![digit_char(n as nat)] =~= out@);
        } else {
            assert(old(out)@ + spec_decimal((n / 10) as nat).push(digit_char((n % 10) as nat))
                =~= old(out)@ + spec_decimal((n / 10) as nat) + seq![digit_char((n % 10) as nat)]);
        }
    }
}

/// The prefix that names the failing query's 0-based position in the
/// outward-facing message.
pub open spec fn position_prefix(position: nat) -> Seq<char> {
    "Inside `.queries["@ + spec_decimal(position) + "]`: "@
}

/// Rewrites an error's message so that the caller sees which query of the
/// batch failed: the 0-based position is prepended, the classification kept.
pub fn attribute_position(err: ResponseError, position: usize) -> (r: ResponseError)
    ensures
        r.code == err.code,
        r.message@ == position_prefix(position as nat) + err.message@,
{
    let mut message: String = "Inside `.queries[".to_owned();
    push_decimal(position, &mut message);
    message.append("]`: ");
    message.append(err.message.as_str());
    proof {
        assert(message@ =~= position_prefix(position as nat) + err.message@);
    }
    ResponseError { code: err.code, message }
}

/// Pairs an error with the 0-based position of the query that produced it,
/// so that no failure can leave the dispatcher without its attribution.
pub fn with_index<T>(r: Result<T, ResponseError>, position: usize) -> (attributed: Result<
    T,
    (ResponseError, usize),
>)
    ensures
        r is Ok <==> attributed is Ok,
        r is Ok ==> attributed->Ok_0 == r->Ok_0,
        r is Err ==> attributed->Err_0 == (r->Err_0, position),
{
    match r {
        Ok(v) => Ok(v),
        Err(e) => Err((e, position)),
    }
}

} // verus!
