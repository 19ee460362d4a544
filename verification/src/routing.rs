use vstd::prelude::*;

verus! {

/// The routes the server recognises: `GET /health` and
/// `GET /start_gesture_recognition`. Any other method+path pair,
/// including a recognised path with the wrong method, falls through
/// to `NotFound`.
#[derive(Clone, Copy, PartialEq, Eq, Structural, Debug)]
pub enum Route {
    Health,
    StartGestureRecognition,
    NotFound,
}

/// Which route a `(method, path)` pair is dispatched to.
pub open spec fn spec_route(method: Seq<char>, path: Seq<char>) -> Route {
    if method == "GET"@ && path == "/health"@ {
        Route::Health
    } else if method == "GET"@ && path == "/start_gesture_recognition"@ {
        Route::StartGestureRecognition
    } else {
        Route::NotFound
    }
}

/// Character-by-character string comparison, proved equivalent to
/// equality of the two views.
pub fn str_eq(a: &str, b: &str) -> (r: bool)
    ensures
        r == (a@ == b@),
{
    let alen = a.unicode_len();
    let blen = b.unicode_len();
    if alen != blen {
        return false;
    }
    let mut i: usize = 0;
    while i < alen
        invariant
            i <= alen,
            alen == a@.len(),
            blen == b@.len(),
            alen == blen,
            forall|j: int| 0 <= j < i ==> a@[j] == b@[j],
        decreases alen - i,
    {
        if a.get_char(i) != b.get_char(i) {
            return false;
        }
        i += 1;
    }
    proof {
        assert(a@ =~= b@);
    }
    true
}

/// Maps a request's method and path to the route that handles it.
pub fn route_of(method: &str, path: &str) -> (r: Route)
    ensures
        r == spec_route(method@, path@),
{
    if str_eq(method, "GET") {
        if str_eq(path, "/health") {
            Route::Health
        } else if str_eq(path, "/start_gesture_recognition") {
            Route::StartGestureRecognition
        } else {
            Route::NotFound
        }
    } else {
        Route::NotFound
    }
}

} // verus!
