//! Route matching: a total function from a URL path to the page it selects.

use vstd::prelude::*;
use vstd::string::StrSliceExecFns;

verus! {

/// The pages of the application: one for each registered path pattern, and a
/// catch-all for every other path.
#[derive(Clone, Copy, PartialEq, Eq, Structural, Debug)]
pub enum Route {
    Home,
    Counter,
    NotFound,
}

/// The path that selects the home page.
pub open spec fn home_path() -> Seq<char> {
    seq!['/']
}

/// The path that selects the counter page.
pub open spec fn counter_path() -> Seq<char> {
    seq!['/', 'c', 'o', 'u', 'n', 't', 'e', 'r']
}

/// Which page a path selects. Matching is exact: any path other than the two
/// registered ones selects the not-found page.
pub open spec fn spec_route(path: Seq<char>) -> Route {
    if path == home_path() {
        Route::Home
    } else if path == counter_path() {
        Route::Counter
    } else {
        Route::NotFound
    }
}

/// Character-by-character equality of two strings.
fn str_chars_eq(a: &str, b: &str) -> (r: bool)
    ensures
        r == (a@ == b@),
{
    let a_len = a.unicode_len();
    let b_len = b.unicode_len();
    if a_len != b_len {
        return false;
    }
    let mut i: usize = 0;
    while i < a_len
        invariant
            a_len == a@.len(),
            b_len == b@.len(),
            a_len == b_len,
            i <= a_len,
            forall|j: int| 0 <= j < i ==> a@[j] == b@[j],
        decreases a_len - i,
    {
        if a.get_char(i) != b.get_char(i) {
            return false;
        }
        i = i + 1;
    }
    proof {
        assert(a@ =~= b@);
    }
    true
}

/// Maps a path to its page: `/` to the home page, `/counter` to the counter
/// page, and every other path to the not-found page. Total and side-effect
/// free.
pub fn route_for_path(path: &str) -> (r: Route)
    ensures
        r == spec_route(path@),
{
    proof {
        reveal_strlit("/");
        reveal_strlit("/counter");
        assert("/"@ =~= home_path());
        assert("/counter"@ =~= counter_path());
    }
    if str_chars_eq(path, "/") {
        Route::Home
    } else if str_chars_eq(path, "/counter") {
        Route::Counter
    } else {
        Route::NotFound
    }
}

/// An unregistered path always routes to the not-found page.
pub proof fn lemma_unregistered_path_is_not_found(path: Seq<char>)
    requires
        path != home_path(),
        path != counter_path(),
    ensures
        spec_route(path) == Route::NotFound,
{
}

} // verus!
