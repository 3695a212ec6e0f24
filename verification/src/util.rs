//! Failures of remote calls, how the harness weighs them, and the random
//! draws that antagonists make.

use vstd::prelude::*;
use vstd::string::*;

verus! {

/// The status that the control plane answers when a resource does not exist.
pub const NOT_FOUND: u16 = 404;

/// The smallest status of the server-error class.
pub const SERVER_ERROR_FIRST: u16 = 500;

/// The largest status of the server-error class.
pub const SERVER_ERROR_LAST: u16 = 599;

/// How a call to the control plane failed.
#[derive(Clone, Copy, Debug, PartialEq, Eq, Structural)]
pub enum ApiError {
    /// The request was rejected before it was sent.
    InvalidRequest,
    /// The connection failed or was lost.
    CommunicationError,
    /// The connection could not be upgraded.
    InvalidUpgrade,
    /// The control plane answered with a documented error, under this status.
    ErrorResponse(u16),
    /// The body of an expected response could not be read.
    ResponseBodyError,
    /// The body of an expected response could not be decoded.
    InvalidResponsePayload,
    /// The control plane answered with a response that its description does
    /// not list.
    UnexpectedResponse,
    /// A hook of the client reported a failure of its own.
    Custom,
}

impl ApiError {
    /// Whether the control plane produced an error response.
    pub open spec fn has_response(self) -> bool {
        self is ErrorResponse
    }

    /// Whether this failure says that the resource does not exist.
    pub open spec fn is_not_found(self) -> bool {
        self == ApiError::ErrorResponse(NOT_FOUND)
    }

    /// Whether this failure is an error response of the server-error class.
    pub open spec fn is_server_error(self) -> bool {
        self matches ApiError::ErrorResponse(status) && SERVER_ERROR_FIRST <= status
            <= SERVER_ERROR_LAST
    }

    /// Whether the call failed without a usable answer: the connection failed,
    /// or what came back could not be read, decoded or recognized.
    pub open spec fn is_transport_failure(self) -> bool {
        !(self is ErrorResponse) && !(self is InvalidRequest)
    }

    /// Whether this failure ends the run when server errors are tolerated:
    /// everything but an error response does.
    pub open spec fn fatal_when_lenient(self) -> bool {
        !self.has_response()
    }

    /// Whether this failure ends the run when server errors are fatal: an
    /// error response of the server-error class does, and so does every
    /// transport failure.
    pub open spec fn fatal_when_strict(self) -> bool {
        self.is_server_error() || self.is_transport_failure()
    }

    /// Tells whether this failure says that the resource does not exist.
    pub fn not_found(&self) -> (b: bool)
        ensures
            b == self.is_not_found(),
    {
        match self {
            ApiError::ErrorResponse(status) => *status == NOT_FOUND,
            _ => false,
        }
    }
}

/// Drops the value of a successful call and keeps its failure.
pub fn unwrap_oxide_api_error<T>(result: Result<T, ApiError>) -> (out: Result<(), ApiError>)
    ensures
        result is Ok ==> out == Ok::<(), ApiError>(()),
        result matches Err(e) ==> out == Err::<(), ApiError>(e),
{
    match result {
        Ok(_) => Ok(()),
        Err(e) => Err(e),
    }
}

/// Weighs a failure while server errors are tolerated: `Ok` where the control
/// plane produced an error response, whatever its status, and the failure
/// itself where it produced none.
pub fn fail_if_no_response(e: ApiError) -> (out: Result<(), ApiError>)
    ensures
        out == (if e.fatal_when_lenient() {
            Err::<(), ApiError>(e)
        } else {
            Ok::<(), ApiError>(())
        }),
{
    match e {
        ApiError::ErrorResponse(_) => Ok(()),
        _ => Err(e),
    }
}

/// Weighs a failure while server errors are fatal: the failure itself for an
/// error response of the server-error class and for every transport failure,
/// `Ok` for any other error response and for a request that was never sent.
pub fn fail_if_500(e: ApiError) -> (out: Result<(), ApiError>)
    ensures
        out == (if e.fatal_when_strict() {
            Err::<(), ApiError>(e)
        } else {
            Ok::<(), ApiError>(())
        }),
{
    match e {
        ApiError::ErrorResponse(status) => {
            if SERVER_ERROR_FIRST <= status && status <= SERVER_ERROR_LAST {
                Err(e)
            } else {
                Ok(())
            }
        },
        ApiError::InvalidRequest => Ok(()),
        ApiError::CommunicationError
        | ApiError::InvalidUpgrade
        | ApiError::ResponseBodyError
        | ApiError::InvalidResponsePayload
        | ApiError::UnexpectedResponse
        | ApiError::Custom => Err(e),
    }
}

/// The sum of a table of weights.
pub open spec fn total_weight(weights: Seq<u32>) -> nat
    decreases weights.len(),
{
    if weights.len() == 0 {
        0
    } else {
        total_weight(weights.drop_last()) + weights.last() as nat
    }
}

/// Whether a table of weights can be drawn from: it holds a weight that is not
/// zero, and its sum fits the weights' type.
pub open spec fn drawable(weights: Seq<u32>) -> bool {
    0 < total_weight(weights) <= u32::MAX
}

/// Draws an index of `weights` at random, each with a chance in proportion to
/// its weight.
///
/// Trusted: builds `rand::distributions::WeightedIndex` over the table and
/// samples it once with the thread's generator. The contract claims of the
/// sample only what holds of every draw: it is an index of the table, and the
/// weight there is not zero. The precondition leaves out the tables that the
/// constructor refuses (empty, all zero) and those whose sum it cannot hold.
#[verifier::external_body]
pub(crate) fn sample_weighted(weights: &Vec<u32>) -> (index: usize)
    requires
        drawable(weights@),
    ensures
        index < weights@.len(),
        weights@[index as int] > 0,
{
    let table = rand::distributions::WeightedIndex::new(weights).unwrap();
    rand::distributions::Distribution::sample(&table, &mut rand::thread_rng())
}

/// Draws a whole number between zero and `max` at random.
///
/// Trusted: calls `rand::Rng::gen_range` on the thread's generator with the
/// closed range from zero to `max`, which is never empty. The contract claims
/// only that the draw lies in that range.
#[verifier::external_body]
fn uniform_up_to(max: u64) -> (drawn: u64)
    ensures
        drawn <= max,
{
    rand::Rng::gen_range(&mut rand::thread_rng(), 0..=max)
}

/// Draws how long to sleep: a number of milliseconds between zero and
/// `max_millis`, both included. The caller does the sleeping.
pub fn sleep_random_ms(max_millis: u64) -> (millis: u64)
    ensures
        millis <= max_millis,
{
    uniform_up_to(max_millis)
}

/// Draws an index of `weights` at random, each with a chance in proportion to
/// its weight, or `None` where the table cannot be drawn from.
pub fn draw_weighted(weights: &Vec<u32>) -> (drawn: Option<usize>)
    ensures
        drawn is Some <==> drawable(weights@),
        drawn matches Some(index) ==> index < weights@.len() && weights@[index as int] > 0,
{
    let mut total: u32 = 0;
    let mut i: usize = 0;
    while i < weights.len()
        invariant
            i <= weights.len(),
            total as nat == total_weight(weights@.take(i as int)),
        decreases weights.len() - i,
    {
        proof {
            assert(weights@.take(i + 1).drop_last() =~= weights@.take(i as int));
        }
        match total.checked_add(weights[i]) {
            Some(sum) => {
                total = sum;
            },
            None => {
                proof {
                    lemma_total_weight_grows(weights@, i + 1);
                }
                return None;
            },
        }
        i = i + 1;
    }
    proof {
        assert(weights@.take(i as int) =~= weights@);
    }
    if total == 0 {
        None
    } else {
        Some(sample_weighted(weights))
    }
}

/// A table weighs no less than any of its prefixes.
pub proof fn lemma_total_weight_grows(weights: Seq<u32>, n: int)
    requires
        0 <= n <= weights.len(),
    ensures
        total_weight(weights.take(n)) <= total_weight(weights),
    decreases weights.len(),
{
    if n == weights.len() {
        assert(weights.take(n) =~= weights);
    } else {
        lemma_total_weight_grows(weights.drop_last(), n);
        assert(weights.drop_last().take(n) =~= weights.take(n));
    }
}

/// The character that stands for a decimal digit.
pub open spec fn digit_char(d: nat) -> char {
    if d == 0 {
        '0'
    } else if d == 1 {
        '1'
    } else if d == 2 {
        '2'
    } else if d == 3 {
        '3'
    } else if d == 4 {
        '4'
    } else if d == 5 {
        '5'
    } else if d == 6 {
        '6'
    } else if d == 7 {
        '7'
    } else if d == 8 {
        '8'
    } else {
        '9'
    }
}

/// A number written in decimal: most significant digit first, no sign, no
/// padding.
pub open spec fn decimal(n: nat) -> Seq<char>
    decreases n,
{
    if n < 10 {
        seq![digit_char(n)]
    } else {
        decimal(n / 10).push(digit_char(n % 10))
    }
}

/// The text of one decimal digit.
fn digit_str(d: u64) -> (s: &'static str)
    requires
        d < 10,
    ensures
        s@ == seq![digit_char(d as nat)],
{
    proof {
        reveal_strlit("0");
        reveal_strlit("1");
        reveal_strlit("2");
        reveal_strlit("3");
        reveal_strlit("4");
        reveal_strlit("5");
        reveal_strlit("6");
        reveal_strlit("7");
        reveal_strlit("8");
        reveal_strlit("9");
    }
    let s = if d == 0 {
        "0"
    } else if d == 1 {
        "1"
    } else if d == 2 {
        "2"
    } else if d == 3 {
        "3"
    } else if d == 4 {
        "4"
    } else if d == 5 {
        "5"
    } else if d == 6 {
        "6"
    } else if d == 7 {
        "7"
    } else if d == 8 {
        "8"
    } else {
        "9"
    };
    assert(s@ =~= seq![digit_char(d as nat)]);
    s
}

/// Writes a number in decimal.
pub fn to_decimal(n: u64) -> (s: String)
    ensures
        s@ == decimal(n as nat),
    decreases n,
{
    if n < 10 {
        String::from_str(digit_str(n))
    } else {
        let s = to_decimal(n / 10).concat(digit_str(n % 10));
        assert(s@ =~= decimal(n as nat));
        s
    }
}

/// Whether a character is a decimal digit.
pub open spec fn is_digit(c: char) -> bool {
    c == '0' || c == '1' || c == '2' || c == '3' || c == '4' || c == '5' || c == '6' || c == '7'
        || c == '8' || c == '9'
}

/// A number in decimal is at least one character long and holds digits only.
pub proof fn lemma_decimal_is_digits(n: nat)
    ensures
        decimal(n).len() >= 1,
        n >= 10 ==> decimal(n).len() >= 2,
        forall|i: int| 0 <= i < decimal(n).len() ==> is_digit(#[trigger] decimal(n)[i]),
    decreases n,
{
    if n >= 10 {
        lemma_decimal_is_digits(n / 10);
    }
}

/// Two numbers that are written alike in decimal are the same number.
pub proof fn lemma_decimal_is_injective(a: nat, b: nat)
    requires
        decimal(a) == decimal(b),
    ensures
        a == b,
    decreases a,
{
    lemma_decimal_is_digits(a);
    lemma_decimal_is_digits(b);
    if a < 10 {
        assert(decimal(a).len() == 1);
        assert(b < 10);
        assert(decimal(a)[0] == digit_char(a));
        assert(decimal(b)[0] == digit_char(b));
    } else {
        assert(b >= 10);
        let da = decimal(a / 10);
        let db = decimal(b / 10);
        assert(decimal(a).drop_last() =~= da);
        assert(decimal(b).drop_last() =~= db);
        assert(decimal(a).last() == digit_char(a % 10));
        assert(decimal(b).last() == digit_char(b % 10));
        lemma_decimal_is_injective(a / 10, b / 10);
        assert(a % 10 == b % 10);
    }
}

/// A failure without a usable answer ends the run whether server errors are
/// tolerated or not.
pub proof fn lemma_transport_failure_is_fatal(e: ApiError)
    requires
        e.is_transport_failure(),
    ensures
        e.fatal_when_lenient(),
        e.fatal_when_strict(),
{
}

/// The answer that a resource does not exist never ends the run, and neither
/// does any other error response below the server-error class.
pub proof fn lemma_not_found_is_tolerated(e: ApiError)
    requires
        e.has_response(),
        !e.is_server_error(),
    ensures
        !e.fatal_when_lenient(),
        !e.fatal_when_strict(),
        ApiError::ErrorResponse(NOT_FOUND).has_response(),
        !ApiError::ErrorResponse(NOT_FOUND).is_server_error(),
{
}

} // verus!
