//! The grammar of a bus lane's routes: `#[route(State::field => Data::field,
//! State::other <= Data::other)]`. `=>` writes a state field into the lane,
//! `<=` updates a state field from the lane.

use vstd::prelude::*;
use crate::codegen::model::{expected_at, expected_msg, toks_view, Tok, TokView};

verus! {

/// A route between a state field and a lane field, each named by the last
/// segment of its path.
pub struct Route {
    /// `true` for `<=` (from the lane into the state), `false` for `=>`.
    pub into_state: bool,
    pub state_field: String,
    pub lane_field: String,
}

pub struct RouteView {
    pub into_state: bool,
    pub state_field: Seq<char>,
    pub lane_field: Seq<char>,
}

impl View for Route {
    type V = RouteView;

    open spec fn view(&self) -> RouteView {
        RouteView {
            into_state: self.into_state,
            state_field: self.state_field@,
            lane_field: self.lane_field@,
        }
    }
}

pub open spec fn routes_view(v: Seq<Route>) -> Seq<RouteView> {
    v.map_values(|r: Route| r@)
}

pub open spec fn is_punct(t: TokView, c: char) -> bool {
    t matches TokView::Punct(x, _) && x == c
}

/// A `::` at position `i`: a `:` joined to a second `:`.
pub open spec fn is_path_sep(t: Seq<TokView>, i: int) -> bool {
    &&& 0 <= i && i + 1 < t.len()
    &&& t[i] == TokView::Punct(':', true)
    &&& is_punct(t[i + 1], ':')
}

/// The rest of a path after its segment `last` at position `i`: further
/// `:: ident` segments. Gives the last segment and the position after it.
pub open spec fn path_rest(t: Seq<TokView>, i: int, last: Seq<char>) -> Result<(Seq<char>, int), Seq<char>>
    decreases t.len() - i,
{
    if 0 <= i < t.len() && is_path_sep(t, i) {
        if i + 2 < t.len() && t[i + 2] is Ident {
            path_rest(t, i + 3, t[i + 2]->Ident_0)
        } else {
            Err(expected_at(t.len() as int, i + 2, "expected identifier"@))
        }
    } else {
        Ok((last, i))
    }
}

/// A path at position `i`: an optional leading `::`, then identifiers
/// separated by `::`. Gives its last segment and the position after it.
pub open spec fn spec_path(t: Seq<TokView>, i: int) -> Result<(Seq<char>, int), Seq<char>> {
    let j = if is_path_sep(t, i) { i + 2 } else { i };
    if 0 <= j < t.len() && t[j] is Ident {
        path_rest(t, j + 1, t[j]->Ident_0)
    } else {
        Err(expected_at(t.len() as int, j, "expected identifier"@))
    }
}

/// The arrow at position `i`: `<=` (a `<` joined to `=`) or `=>`. Gives
/// whether it points into the state and the position after it.
pub open spec fn spec_arrow(t: Seq<TokView>, i: int) -> Result<(bool, int), Seq<char>> {
    if 0 <= i && i + 1 < t.len() && t[i] == TokView::Punct('<', true) && is_punct(t[i + 1], '=') {
        Ok((true, i + 2))
    } else if 0 <= i && i + 1 < t.len() && is_punct(t[i], '=') && is_punct(t[i + 1], '>') {
        Ok((false, i + 2))
    } else {
        Err(expected_at(t.len() as int, i, "expected <= or =>"@))
    }
}

/// One route at position `i`: a path, an arrow, a path.
pub open spec fn spec_route(t: Seq<TokView>, i: int) -> Result<(RouteView, int), Seq<char>> {
    match spec_path(t, i) {
        Err(e) => Err(e),
        Ok((s, j)) => match spec_arrow(t, j) {
            Err(e) => Err(e),
            Ok((into, k)) => match spec_path(t, k) {
                Err(e) => Err(e),
                Ok((l, m)) => Ok((RouteView { into_state: into, state_field: s, lane_field: l }, m)),
            },
        },
    }
}

/// The routes from position `i` to the end: routes separated by commas,
/// with an optional comma at the end.
pub open spec fn spec_routes_from(t: Seq<TokView>, i: int) -> Result<Seq<RouteView>, Seq<char>>
    decreases t.len() - i,
{
    if i < 0 || i >= t.len() {
        Ok(Seq::empty())
    } else {
        match spec_route(t, i) {
            Err(e) => Err(e),
            Ok((r, j)) => if j <= i {
                Err("expected identifier"@)
            } else if j >= t.len() {
                Ok(seq![r])
            } else if is_punct(t[j], ',') {
                match spec_routes_from(t, j + 1) {
                    Err(e) => Err(e),
                    Ok(rest) => Ok(seq![r] + rest),
                }
            } else {
                Err("expected `,`"@)
            },
        }
    }
}

/// The routes an attribute's tokens describe.
pub open spec fn spec_parse_routes(t: Seq<TokView>) -> Result<Seq<RouteView>, Seq<char>> {
    spec_routes_from(t, 0)
}

fn tok_is_punct(t: &Tok, c: char) -> (b: bool)
    ensures
        b == is_punct(t@, c),
{
    match t {
        Tok::Punct(x, _) => *x == c,
        _ => false,
    }
}

pub(crate) fn path_sep_at(t: &Vec<Tok>, i: usize) -> (b: bool)
    ensures
        b == is_path_sep(toks_view(t@), i as int),
{
    if i < t.len() && i + 1 < t.len() {
        match &t[i] {
            Tok::Punct(c, joint) => *c == ':' && *joint && tok_is_punct(&t[i + 1], ':'),
            _ => false,
        }
    } else {
        false
    }
}

pub(crate) fn ident_at(t: &Vec<Tok>, i: usize) -> (r: Option<String>)
    ensures
        match r {
            Some(s) => (i as int) < t@.len() && toks_view(t@)[i as int] == TokView::Ident(s@),
            None => !((i as int) < t@.len() && toks_view(t@)[i as int] is Ident),
        },
{
    if i < t.len() {
        match &t[i] {
            Tok::Ident(s) => Some(s.clone()),
            _ => None,
        }
    } else {
        None
    }
}

pub(crate) fn parse_path(t: &Vec<Tok>, i: usize) -> (r: Result<(String, usize), String>)
    requires
        t@.len() < usize::MAX - 3,
    ensures
        match r {
            Ok((s, j)) => spec_path(toks_view(t@), i as int) == Ok::<(Seq<char>, int), Seq<char>>(
                (s@, j as int),
            ) && j > i,
            Err(e) => spec_path(toks_view(t@), i as int) == Err::<(Seq<char>, int), Seq<char>>(e@),
        },
{
    let ghost tv = toks_view(t@);
    let start = if i < t.len() && path_sep_at(t, i) {
        i + 2
    } else {
        i
    };
    let mut last = match ident_at(t, start) {
        Some(s) => s,
        None => return Err(expected_msg(t.len(), start, "expected identifier")),
    };
    let mut j = start + 1;
    while j < t.len() && path_sep_at(t, j)
        invariant
            t@.len() < usize::MAX - 3,
            tv == toks_view(t@),
            j > i,
            j <= t@.len() + 2,
            spec_path(tv, i as int) == path_rest(tv, j as int, last@),
        decreases t@.len() + 3 - j,
    {
        match ident_at(t, j + 2) {
            Some(s) => {
                last = s;
                j = j + 3;
            },
            None => {
                return Err(expected_msg(t.len(), j + 2, "expected identifier"));
            },
        }
    }
    Ok((last, j))
}

fn parse_arrow(t: &Vec<Tok>, i: usize) -> (r: Result<(bool, usize), String>)
    requires
        t@.len() < usize::MAX - 3,
    ensures
        match r {
            Ok((b, j)) => spec_arrow(toks_view(t@), i as int) == Ok::<(bool, int), Seq<char>>(
                (b, j as int),
            ),
            Err(e) => spec_arrow(toks_view(t@), i as int) == Err::<(bool, int), Seq<char>>(e@),
        },
{
    if i < t.len() && i + 1 < t.len() {
        let into = match &t[i] {
            Tok::Punct(c, joint) => *c == '<' && *joint,
            _ => false,
        };
        if into && tok_is_punct(&t[i + 1], '=') {
            return Ok((true, i + 2));
        }
        if tok_is_punct(&t[i], '=') && tok_is_punct(&t[i + 1], '>') {
            return Ok((false, i + 2));
        }
    }
    Err(expected_msg(t.len(), i, "expected <= or =>"))
}

fn parse_route(t: &Vec<Tok>, i: usize) -> (r: Result<(Route, usize), String>)
    requires
        t@.len() < usize::MAX - 3,
    ensures
        match r {
            Ok((rt, j)) => spec_route(toks_view(t@), i as int) == Ok::<(RouteView, int), Seq<char>>(
                (rt@, j as int),
            ) && j > i,
            Err(e) => spec_route(toks_view(t@), i as int) == Err::<(RouteView, int), Seq<char>>(e@),
        },
{
    let (s, j) = match parse_path(t, i) {
        Ok(p) => p,
        Err(e) => return Err(e),
    };
    let (into, k) = match parse_arrow(t, j) {
        Ok(a) => a,
        Err(e) => return Err(e),
    };
    let (l, m) = match parse_path(t, k) {
        Ok(p) => p,
        Err(e) => return Err(e),
    };
    Ok((Route { into_state: into, state_field: s, lane_field: l }, m))
}

/// Parses the tokens of a `route(...)` attribute into its routes.
pub fn parse_routes(t: &Vec<Tok>) -> (r: Result<Vec<Route>, String>)
    requires
        t@.len() < usize::MAX - 3,
    ensures
        match r {
            Ok(rs) => spec_parse_routes(toks_view(t@)) == Ok::<Seq<RouteView>, Seq<char>>(
                routes_view(rs@),
            ),
            Err(e) => spec_parse_routes(toks_view(t@)) == Err::<Seq<RouteView>, Seq<char>>(e@),
        },
{
    let ghost tv = toks_view(t@);
    let mut out: Vec<Route> = Vec::new();
    let mut i: usize = 0;
    while i < t.len()
        invariant
            t@.len() < usize::MAX - 3,
            tv == toks_view(t@),
            i <= t@.len(),
            forall|rest: Seq<RouteView>|
                spec_routes_from(tv, i as int) == Ok::<Seq<RouteView>, Seq<char>>(rest) ==> spec_parse_routes(tv)
                    == Ok::<Seq<RouteView>, Seq<char>>(routes_view(out@) + rest),
            forall|e: Seq<char>|
                spec_routes_from(tv, i as int) == Err::<Seq<RouteView>, Seq<char>>(e) ==> spec_parse_routes(tv)
                    == Err::<Seq<RouteView>, Seq<char>>(e),
        decreases t@.len() - i,
    {
        let (route, j) = match parse_route(t, i) {
            Ok(p) => p,
            Err(e) => return Err(e),
        };
        let ghost rv = route@;
        let ghost before = routes_view(out@);
        out.push(route);
        assert(routes_view(out@) =~= before.push(rv));
        if j >= t.len() {
            assert(spec_routes_from(tv, i as int) == Ok::<Seq<RouteView>, Seq<char>>(seq![rv]));
            assert(before + seq![rv] =~= routes_view(out@));
            return Ok(out);
        }
        if !tok_is_punct(&t[j], ',') {
            return Err("expected `,`".to_owned());
        }
        assert forall|rest: Seq<RouteView>|
            spec_routes_from(tv, j + 1) == Ok::<Seq<RouteView>, Seq<char>>(rest) implies spec_parse_routes(tv)
                == Ok::<Seq<RouteView>, Seq<char>>(routes_view(out@) + rest) by {
            assert(spec_routes_from(tv, i as int) == Ok::<Seq<RouteView>, Seq<char>>(seq![rv] + rest));
            assert(before + (seq![rv] + rest) =~= routes_view(out@) + rest);
        }
        i = j + 1;
    }
    assert(spec_routes_from(tv, i as int) == Ok::<Seq<RouteView>, Seq<char>>(Seq::empty()));
    assert(routes_view(out@) + Seq::<RouteView>::empty() =~= routes_view(out@));
    Ok(out)
}

} // verus!
