//! The dispatcher: which handler a request reaches.
//!
//! Three classes of requests are served: the landing page at `/`, the
//! team listing at `/api/list_teams`, and the static assets at `/static`
//! and below. They are served to the verb GET, and to HEAD, which asks
//! for the same answer without its body. Another verb is not allowed on
//! these paths, and every other path matches no route.

use vstd::prelude::*;
use vstd::string::{StrSliceExecFns, StringExecFns};

verus! {

/// The path of the landing page.
pub const ROOT_PATH: &'static str = "/";

/// The path of the team listing.
pub const LIST_TEAMS_PATH: &'static str = "/api/list_teams";

/// The path at and below which the static assets are served.
pub const STATIC_PREFIX: &'static str = "/static";

/// The verb of a request, as far as the routes tell verbs apart.
#[derive(Clone, Copy, Debug, PartialEq, Eq, Structural)]
pub enum Verb {
    /// GET.
    Get,
    /// HEAD.
    Head,
    /// Any other verb.
    Other,
}

/// Where a request goes.
#[derive(Debug, PartialEq, Eq)]
pub enum Route {
    /// To the handler of the landing page.
    Root,
    /// To the handler of the team listing.
    ListTeams,
    /// To the static assets; `rest` is the path below the static prefix.
    Static { rest: String },
    /// Nowhere: the path is served, but not to this verb.
    MethodNotAllowed,
    /// Nowhere: no route matches the path.
    NotFound,
}

/// A route as a mathematical value.
pub enum RouteView {
    Root,
    ListTeams,
    Static { rest: Seq<char> },
    MethodNotAllowed,
    NotFound,
}

impl View for Route {
    type V = RouteView;

    open spec fn view(&self) -> RouteView {
        match self {
            Route::Root => RouteView::Root,
            Route::ListTeams => RouteView::ListTeams,
            Route::Static { rest } => RouteView::Static { rest: rest@ },
            Route::MethodNotAllowed => RouteView::MethodNotAllowed,
            Route::NotFound => RouteView::NotFound,
        }
    }
}

/// Whether `path` is `prefix` itself or lies below it: it begins with
/// `prefix`, and ends there or goes on with `/`.
pub open spec fn is_at_or_below(prefix: Seq<char>, path: Seq<char>) -> bool {
    prefix.is_prefix_of(path) && (path.len() == prefix.len() || path[prefix.len() as int] == '/')
}

/// Where a path leads, whatever the verb.
pub open spec fn target_of(path: Seq<char>) -> RouteView {
    if path == ROOT_PATH@ {
        RouteView::Root
    } else if path == LIST_TEAMS_PATH@ {
        RouteView::ListTeams
    } else if is_at_or_below(STATIC_PREFIX@, path) {
        RouteView::Static { rest: path.skip(STATIC_PREFIX@.len() as int) }
    } else {
        RouteView::NotFound
    }
}

/// The route of a request with the verb `verb` and the path `path`:
/// where the path leads, for GET and HEAD; for another verb no route,
/// and the path tells whether the verb is not allowed or nothing is
/// found.
pub open spec fn route_of(verb: Verb, path: Seq<char>) -> RouteView {
    if target_of(path) is NotFound {
        RouteView::NotFound
    } else if verb is Other {
        RouteView::MethodNotAllowed
    } else {
        target_of(path)
    }
}

/// Tells whether `text` begins with `prefix`.
pub fn begins_with(text: &str, prefix: &str) -> (begins: bool)
    ensures
        begins == prefix@.is_prefix_of(text@),
{
    let text_len = text.unicode_len();
    let prefix_len = prefix.unicode_len();
    if text_len < prefix_len {
        return false;
    }
    let mut at: usize = 0;
    while at < prefix_len
        invariant
            at <= prefix_len <= text_len,
            prefix_len == prefix@.len(),
            text_len == text@.len(),
            forall|i: int| 0 <= i < at ==> prefix@[i] == text@[i],
        decreases prefix_len - at,
    {
        if prefix.get_char(at) != text.get_char(at) {
            assert(prefix@ != text@.subrange(0, prefix@.len() as int)) by {
                assert(text@.subrange(0, prefix@.len() as int)[at as int] == text@[at as int]);
            }
            return false;
        }
        at = at + 1;
    }
    assert(prefix@ =~= text@.subrange(0, prefix@.len() as int));
    true
}

/// Tells whether two texts are the same.
pub fn same_text(a: &str, b: &str) -> (same: bool)
    ensures
        same == (a@ == b@),
{
    let same = a.unicode_len() == b.unicode_len() && begins_with(a, b);
    proof {
        if same {
            assert(a@ =~= a@.subrange(0, b@.len() as int));
        }
    }
    same
}

/// Finds where a path leads, whatever the verb.
pub fn target(path: &str) -> (route: Route)
    ensures
        route@ == target_of(path@),
{
    if same_text(path, ROOT_PATH) {
        Route::Root
    } else if same_text(path, LIST_TEAMS_PATH) {
        Route::ListTeams
    } else if begins_with(path, STATIC_PREFIX) {
        let path_len = path.unicode_len();
        let prefix_len = STATIC_PREFIX.unicode_len();
        if path_len == prefix_len || path.get_char(prefix_len) == '/' {
            let rest = String::from_str(path.substring_char(prefix_len, path_len));
            assert(rest@ =~= path@.skip(prefix_len as int));
            Route::Static { rest }
        } else {
            Route::NotFound
        }
    } else {
        Route::NotFound
    }
}

/// Finds the route of a request with the verb `verb` and the path `path`.
pub fn resolve(verb: Verb, path: &str) -> (route: Route)
    ensures
        route@ == route_of(verb, path@),
{
    let route = target(path);
    match route {
        Route::NotFound => Route::NotFound,
        _ => match verb {
            Verb::Other => Route::MethodNotAllowed,
            _ => route,
        },
    }
}

/// The three classes of paths do not overlap: the landing page and the
/// team listing are two paths, and neither lies at or below the static
/// prefix.
pub proof fn lemma_routes_do_not_overlap()
    ensures
        ROOT_PATH@ != LIST_TEAMS_PATH@,
        !is_at_or_below(STATIC_PREFIX@, ROOT_PATH@),
        !is_at_or_below(STATIC_PREFIX@, LIST_TEAMS_PATH@),
        target_of(ROOT_PATH@) is Root,
        target_of(LIST_TEAMS_PATH@) is ListTeams,
        target_of(STATIC_PREFIX@) == (RouteView::Static { rest: Seq::empty() }),
{
    reveal_strlit("/");
    reveal_strlit("/api/list_teams");
    reveal_strlit("/static");
    assert(ROOT_PATH@.len() == 1 && LIST_TEAMS_PATH@.len() == 15 && STATIC_PREFIX@.len() == 7);
    assert(LIST_TEAMS_PATH@[1] == 'a' && STATIC_PREFIX@[1] == 's');
    assert(STATIC_PREFIX@.is_prefix_of(STATIC_PREFIX@)) by {
        assert(STATIC_PREFIX@.subrange(0, 7) =~= STATIC_PREFIX@);
    }
    assert(STATIC_PREFIX@.skip(7) =~= Seq::<char>::empty());
    if STATIC_PREFIX@.is_prefix_of(LIST_TEAMS_PATH@) {
        assert(LIST_TEAMS_PATH@.subrange(0, 7)[1] == LIST_TEAMS_PATH@[1]);
    }
}

} // verus!
