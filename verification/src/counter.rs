//! The counter page's state machine: a fetch-once guard, the handling of a
//! fetch outcome, and the text the page renders.

use vstd::prelude::*;
use crate::digits::{parse_u32, spec_decimal, spec_parse_u32, u32_to_decimal};

verus! {

/// The state of one mounted counter page: nothing loaded yet, or the one
/// value the backend returned. A value, once loaded, is never cleared for
/// the lifetime of the mount.
#[derive(Clone, Copy, PartialEq, Eq, Structural, Debug)]
pub enum CounterState {
    Unloaded,
    Loaded(u32),
}

/// The three independent ways a fetch can fail. Each is logged by the caller
/// and none changes the state.
#[derive(Clone, Copy, PartialEq, Eq, Structural, Debug)]
pub enum FetchError {
    /// The response status was outside the success class.
    HttpStatus,
    /// The response body could not be read as text.
    BodyRead,
    /// The body text did not parse as an unsigned number.
    NotANumber,
}

/// Whether the mount hook should issue the one fetch: only while nothing has
/// been loaded.
pub open spec fn spec_fetch_needed(state: CounterState) -> bool {
    state is Unloaded
}

/// The fetch-once guard: re-rendering asks again, and the answer is yes only
/// in the unloaded state.
pub fn fetch_needed(state: &CounterState) -> (r: bool)
    ensures
        r == spec_fetch_needed(*state),
{
    match state {
        CounterState::Unloaded => true,
        CounterState::Loaded(_) => false,
    }
}

/// A success status in the sense of the fetch API: the 2xx class.
pub open spec fn spec_status_ok(status: u16) -> bool {
    200 <= status <= 299
}

/// The state after one fetch outcome. `status` is the HTTP status of the
/// response; `body` is its text, or nothing where reading it failed. The
/// state changes only on a success status whose body parses as a number.
pub open spec fn spec_next_state(
    state: CounterState,
    status: u16,
    body: Option<Seq<char>>,
) -> CounterState {
    if !spec_status_ok(status) {
        state
    } else {
        match body {
            Option::None => state,
            Option::Some(text) => match spec_parse_u32(text) {
                Option::None => state,
                Option::Some(v) => CounterState::Loaded(v),
            },
        }
    }
}

/// The failure, if any, that a fetch outcome is: a non-success status, an
/// unreadable body, or a body that is not a number, in that order.
pub open spec fn spec_fetch_error(status: u16, body: Option<Seq<char>>) -> Option<FetchError> {
    if !spec_status_ok(status) {
        Some(FetchError::HttpStatus)
    } else {
        match body {
            Option::None => Some(FetchError::BodyRead),
            Option::Some(text) => match spec_parse_u32(text) {
                Option::None => Some(FetchError::NotANumber),
                Option::Some(v) => None,
            },
        }
    }
}

/// Applies one fetch outcome: the next state, and the failure to log if the
/// outcome was not a parsable success. Exactly one of the two moves: on
/// success the state becomes loaded and there is no failure; on any failure
/// the state is returned unchanged.
pub fn apply_fetch_outcome(state: CounterState, status: u16, body: &Option<String>) -> (r: (
    CounterState,
    Option<FetchError>,
))
    ensures
        r.0 == spec_next_state(state, status, body.deep_view()),
        r.1 == spec_fetch_error(status, body.deep_view()),
{
    if !(200 <= status && status <= 299) {
        (state, Some(FetchError::HttpStatus))
    } else {
        match body {
            Option::None => (state, Some(FetchError::BodyRead)),
            Option::Some(text) => match parse_u32(text.as_str()) {
                Option::None => (state, Some(FetchError::NotANumber)),
                Option::Some(v) => (CounterState::Loaded(v), None),
            },
        }
    }
}

/// What the page shows: the decimal form of the value once loaded, and the
/// empty string before.
pub open spec fn spec_rendered(state: CounterState) -> Seq<char> {
    match state {
        CounterState::Unloaded => Seq::<char>::empty(),
        CounterState::Loaded(v) => spec_decimal(v as nat),
    }
}

/// The text the counter page renders for its state.
pub fn rendered_text(state: &CounterState) -> (r: String)
    ensures
        r@ == spec_rendered(*state),
{
    match state {
        CounterState::Unloaded => String::new(),
        CounterState::Loaded(v) => u32_to_decimal(*v),
    }
}

/// Once a value is loaded, the mount guard is off: however often the page
/// re-renders, no further fetch is issued for this mount.
pub proof fn lemma_loaded_stops_fetching(v: u32)
    ensures
        !spec_fetch_needed(CounterState::Loaded(v)),
{
}

/// A failed outcome never changes the state: every fetch failure is
/// non-fatal and leaves the page showing what it showed before.
pub proof fn lemma_failure_keeps_state(state: CounterState, status: u16, body: Option<Seq<char>>)
    requires
        spec_fetch_error(status, body) is Some,
    ensures
        spec_next_state(state, status, body) == state,
{
}

/// Round trip: for any value, a success whose body is the value's decimal
/// string loads exactly that value, and the page then shows exactly that
/// string.
pub proof fn lemma_fetch_round_trip(n: u32, status: u16)
    requires
        spec_status_ok(status),
    ensures
        spec_next_state(CounterState::Unloaded, status, Some(spec_decimal(n as nat)))
            == CounterState::Loaded(n),
        spec_rendered(CounterState::Loaded(n)) == spec_decimal(n as nat),
{
    crate::digits::lemma_decimal_round_trip(n);
}

} // verus!
