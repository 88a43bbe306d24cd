//! The expansion of `#[derive(GenericBus)]`: a constructor that places the
//! bus in a static, the `GenericBus` impl that routes state fields to and
//! from the lanes, and an accessor per lane.

use vstd::prelude::*;
use crate::codegen::derive::{last_with_attr, result_view};
use crate::codegen::model::{
    attrs_view, error, fields_view, toks_view, AttrModel, AttrView, DataModel, DataView,
    FieldModel, FieldView, ItemModel, ItemView, MacroError, Tok,
};
use crate::codegen::routes::{parse_routes, routes_view, spec_parse_routes, Route, RouteView};
use crate::text::{push_str, string_from_chars};

verus! {

/// A lane of the bus: its field, its type and its routes.
pub type LaneEntry = (Seq<char>, Seq<char>, Seq<RouteView>);

/// The routes of an attribute: parsed from its list, none when it is not a
/// list.
pub open spec fn attr_routes(a: AttrView) -> Result<Seq<RouteView>, Seq<char>> {
    match a.list_tokens {
        Some(t) => spec_parse_routes(t),
        None => Ok(Seq::empty()),
    }
}

/// One lane entry per `route` attribute of the field, in order.
pub open spec fn field_entries(f: FieldView, attrs: Seq<AttrView>) -> Result<Seq<LaneEntry>, Seq<char>>
    decreases attrs.len(),
{
    if attrs.len() == 0 {
        Ok(Seq::empty())
    } else {
        match field_entries(f, attrs.drop_last()) {
            Err(e) => Err(e),
            Ok(prev) => if attrs.last().path == "route"@ {
                match attr_routes(attrs.last()) {
                    Err(e) => Err(e),
                    Ok(rs) => Ok(prev.push((f.name, f.ty, rs))),
                }
            } else {
                Ok(prev)
            },
        }
    }
}

/// The lane entries of all fields, in order; the first route that does not
/// parse is the error.
pub open spec fn lane_entries(fs: Seq<FieldView>) -> Result<Seq<LaneEntry>, Seq<char>>
    decreases fs.len(),
{
    if fs.len() == 0 {
        Ok(Seq::empty())
    } else {
        match lane_entries(fs.drop_last()) {
            Err(e) => Err(e),
            Ok(prev) => match field_entries(fs.last(), fs.last().attrs) {
                Err(e) => Err(e),
                Ok(more) => Ok(prev + more),
            },
        }
    }
}

/// `state.<s> = data.<l>;` for each route into the state.
pub open spec fn update_stmts(rs: Seq<RouteView>) -> Seq<char>
    decreases rs.len(),
{
    if rs.len() == 0 {
        Seq::empty()
    } else {
        update_stmts(rs.drop_last()) + if rs.last().into_state {
            "        state."@ + rs.last().state_field + " = data."@ + rs.last().lane_field + ";\n"@
        } else {
            Seq::empty()
        }
    }
}

/// `data.<l> = state.<s>;` for each route into the lane.
pub open spec fn write_stmts(rs: Seq<RouteView>) -> Seq<char>
    decreases rs.len(),
{
    if rs.len() == 0 {
        Seq::empty()
    } else {
        write_stmts(rs.drop_last()) + if !rs.last().into_state {
            "        data."@ + rs.last().lane_field + " = state."@ + rs.last().state_field + ";\n"@
        } else {
            Seq::empty()
        }
    }
}

pub open spec fn has_route(rs: Seq<RouteView>, into_state: bool) -> bool {
    exists|i: int| 0 <= i < rs.len() && rs[i].into_state == into_state
}

/// For each lane with routes into the state, a read of the lane that
/// updates those state fields.
pub open spec fn updates(es: Seq<LaneEntry>) -> Seq<char>
    decreases es.len(),
{
    if es.len() == 0 {
        Seq::empty()
    } else {
        let e = es.last();
        updates(es.drop_last()) + if has_route(e.2, true) {
            "        if let Some(data) = self."@ + e.0 + ".read() {\n"@ + update_stmts(e.2)
                + "        }\n"@
        } else {
            Seq::empty()
        }
    }
}

/// For each lane with routes into the lane, a read of the lane, the state
/// fields written into it, and the write back.
pub open spec fn writes(es: Seq<LaneEntry>) -> Seq<char>
    decreases es.len(),
{
    if es.len() == 0 {
        Seq::empty()
    } else {
        let e = es.last();
        writes(es.drop_last()) + if has_route(e.2, false) {
            "        if let Some(mut data) = self."@ + e.0 + ".read() {\n"@ + write_stmts(e.2)
                + "            self."@ + e.0 + ".write(data);\n        }\n"@
        } else {
            Seq::empty()
        }
    }
}

pub open spec fn lane_params(es: Seq<LaneEntry>) -> Seq<char>
    decreases es.len(),
{
    if es.len() == 0 {
        Seq::empty()
    } else {
        lane_params(es.drop_last()) + es.last().0 + ": "@ + es.last().1 + ", "@
    }
}

pub open spec fn lane_inits(es: Seq<LaneEntry>) -> Seq<char>
    decreases es.len(),
{
    if es.len() == 0 {
        Seq::empty()
    } else {
        lane_inits(es.drop_last()) + es.last().0 + ", "@
    }
}

pub open spec fn lane_getters(es: Seq<LaneEntry>) -> Seq<char>
    decreases es.len(),
{
    if es.len() == 0 {
        Seq::empty()
    } else {
        lane_getters(es.drop_last()) + "    fn "@ + es.last().0 + "(&'static self) -> &'static "@
            + es.last().1 + " {\n        &self."@ + es.last().0 + "\n    }\n"@
    }
}

/// The expansion for the bus `name` with these lanes and the state field
/// `si` of type `st`.
pub open spec fn bus_expansion(name: Seq<char>, es: Seq<LaneEntry>, si: Seq<char>, st: Seq<char>) -> Seq<char> {
    "impl "@ + name + " {\n    pub fn new("@ + lane_params(es) + si + ": "@ + st
        + ", estop: ::Oreos::hal::EstopFlag) -> &'static Self {\n        static __"@ + name
        + "__: ::static_cell::StaticCell<"@ + name + "> = ::static_cell::StaticCell::new();\n        __"@
        + name + "__.init(Self { "@ + lane_inits(es) + si
        + ", estop })\n    }\n}\nimpl ::Oreos::hal::GenericBus<"@ + st + "> for "@ + name
        + " {\n    fn estop(&self) -> &::Oreos::hal::EstopFlag {\n        &self.estop\n    }\n    fn update(&self, state: &mut "@
        + st + ") {\n"@ + updates(es) + "    }\n    fn write(&self, state: &"@ + st + ") {\n"@
        + writes(es) + "    }\n}\nimpl "@ + name + " {\n"@ + lane_getters(es) + "}\n"@
}

/// What `#[derive(GenericBus)]` gives for the item: an error unless it is a
/// struct whose routes parse and that has a `#[state]` field (the last one
/// counts), else the bus expansion.
pub open spec fn spec_impl_bus(item: ItemView) -> Result<Seq<char>, Seq<char>> {
    match item.data {
        DataView::Struct(fs) => match lane_entries(fs) {
            Err(e) => Err(e),
            Ok(es) => match last_with_attr(fs, "state"@) {
                None => Err("missing #[state] field"@),
                Some(s) => Ok(bus_expansion(item.name, es, s.name, s.ty)),
            },
        },
        _ => Err("impl_bus only supports structs"@),
    }
}

/// Lanes as the generator holds them.
pub struct Lane {
    pub field: String,
    pub ty: String,
    pub routes: Vec<Route>,
}

pub open spec fn lane_view(l: Lane) -> LaneEntry {
    (l.field@, l.ty@, routes_view(l.routes@))
}

pub open spec fn lanes_view(v: Seq<Lane>) -> Seq<LaneEntry> {
    v.map_values(|l: Lane| lane_view(l))
}

pub open spec fn token_count_ok(a: AttrView) -> bool {
    a.list_tokens matches Some(t) ==> t.len() < usize::MAX - 3
}

/// Every attribute's token list is short enough to index.
pub open spec fn tokens_bounded(fs: Seq<FieldView>) -> bool {
    forall|i: int, j: int|
        0 <= i < fs.len() && 0 <= j < fs[i].attrs.len() ==> token_count_ok(#[trigger] fs[i].attrs[j])
}

fn collect_lanes(fs: &Vec<FieldModel>) -> (r: Result<Vec<Lane>, String>)
    requires
        tokens_bounded(fields_view(fs@)),
    ensures
        match r {
            Ok(ls) => lane_entries(fields_view(fs@)) == Ok::<Seq<LaneEntry>, Seq<char>>(lanes_view(ls@)),
            Err(e) => lane_entries(fields_view(fs@)) == Err::<Seq<LaneEntry>, Seq<char>>(e@),
        },
{
    let ghost fv = fields_view(fs@);
    let mut lanes: Vec<Lane> = Vec::new();
    let mut i: usize = 0;
    assert(fv.take(0) =~= Seq::<FieldView>::empty());
    assert(lanes_view(lanes@) =~= Seq::<LaneEntry>::empty());
    while i < fs.len()
        invariant
            i <= fs@.len(),
            fv == fields_view(fs@),
            tokens_bounded(fv),
            lane_entries(fv.take(i as int)) == Ok::<Seq<LaneEntry>, Seq<char>>(lanes_view(lanes@)),
        decreases fs@.len() - i,
    {
        let f = &fs[i];
        assert(fv[i as int] == f@);
        assert(fv.take(i + 1).drop_last() =~= fv.take(i as int));
        assert(fv.take(i + 1).last() == f@);
        let ghost before = lanes_view(lanes@);
        let ghost mut more: Seq<LaneEntry> = Seq::empty();
        let mut j: usize = 0;
        assert(f@.attrs.take(0) =~= Seq::<AttrView>::empty());
        assert(before + more =~= before);
        while j < f.attrs.len()
            invariant
                i < fs@.len(),
                fv == fields_view(fs@),
                f@ == fv[i as int],
                tokens_bounded(fv),
                j <= f.attrs@.len(),
                lane_entries(fv.take(i as int)) == Ok::<Seq<LaneEntry>, Seq<char>>(before),
                field_entries(f@, f@.attrs.take(j as int)) == Ok::<Seq<LaneEntry>, Seq<char>>(more),
                lanes_view(lanes@) == before + more,
            decreases f.attrs@.len() - j,
        {
            let a: &AttrModel = &f.attrs[j];
            assert(f@.attrs[j as int] == a@);
            assert(f@.attrs.take(j + 1).drop_last() =~= f@.attrs.take(j as int));
            assert(f@.attrs.take(j + 1).last() == a@);
            if crate::text::same_text(a.path.as_str(), "route") {
                let routes = match &a.list_tokens {
                    Some(t) => {
                        assert(fv[i as int].attrs[j as int] == a@);
                        assert(crate::codegen::bus::token_count_ok(fv[i as int].attrs[j as int]));
                        match parse_routes(t) {
                            Ok(rs) => rs,
                            Err(e) => {
                                proof {
                                    lemma_field_entries_err(f@, f@.attrs, j as int, e@);
                                    lemma_lane_entries_err(fv, i as int, e@);
                                }
                                return Err(e);
                            },
                        }
                    },
                    None => Vec::new(),
                };
                proof {
                    if a.list_tokens is None {
                        assert(routes_view(routes@) =~= Seq::<RouteView>::empty());
                    }
                }
                assert(attr_routes(a@) == Ok::<Seq<RouteView>, Seq<char>>(routes_view(routes@)));
                let ghost pv = lanes_view(lanes@);
                let lane = Lane { field: f.name.clone(), ty: f.ty.clone(), routes };
                let ghost lv = lane_view(lane);
                lanes.push(lane);
                assert(lanes_view(lanes@) =~= pv.push(lv));
                proof {
                    assert(before + more.push(lv) =~= (before + more).push(lv));
                    more = more.push(lv);
                }
            }
            j = j + 1;
        }
        assert(f@.attrs.take(f.attrs@.len() as int) =~= f@.attrs);
        assert(lane_entries(fv.take(i + 1)) == Ok::<Seq<LaneEntry>, Seq<char>>(before + more));
        i = i + 1;
    }
    assert(fv.take(fs@.len() as int) =~= fv);
    Ok(lanes)
}

proof fn lemma_field_entries_err(f: FieldView, attrs: Seq<AttrView>, j: int, e: Seq<char>)
    requires
        0 <= j < attrs.len(),
        field_entries(f, attrs.take(j)) is Ok,
        attrs[j].path == "route"@,
        attr_routes(attrs[j]) == Err::<Seq<RouteView>, Seq<char>>(e),
    ensures
        field_entries(f, attrs) == Err::<Seq<LaneEntry>, Seq<char>>(e),
    decreases attrs.len(),
{
    if j == attrs.len() - 1 {
        assert(attrs.drop_last() =~= attrs.take(j));
    } else {
        assert(attrs.drop_last().take(j) =~= attrs.take(j));
        lemma_field_entries_err(f, attrs.drop_last(), j, e);
    }
}

proof fn lemma_lane_entries_err(fs: Seq<FieldView>, i: int, e: Seq<char>)
    requires
        0 <= i < fs.len(),
        lane_entries(fs.take(i)) is Ok,
        field_entries(fs[i], fs[i].attrs) == Err::<Seq<LaneEntry>, Seq<char>>(e),
    ensures
        lane_entries(fs) == Err::<Seq<LaneEntry>, Seq<char>>(e),
    decreases fs.len(),
{
    if i == fs.len() - 1 {
        assert(fs.drop_last() =~= fs.take(i));
    } else {
        assert(fs.drop_last().take(i) =~= fs.take(i));
        lemma_lane_entries_err(fs.drop_last(), i, e);
    }
}

fn push_lane_params(v: &mut Vec<char>, ls: &Vec<Lane>)
    ensures
        final(v)@ == old(v)@ + lane_params(lanes_view(ls@)),
{
    let ghost lv = lanes_view(ls@);
    let mut i: usize = 0;
    while i < ls.len()
        invariant
            i <= ls@.len(),
            lv == lanes_view(ls@),
            v@ == old(v)@ + lane_params(lv.take(i as int)),
        decreases ls@.len() - i,
    {
        assert(lv.take(i + 1).drop_last() =~= lv.take(i as int));
        assert(lv.take(i + 1).last() == lane_view(ls@[i as int]));
        push_str(v, ls[i].field.as_str());
        push_str(v, ": ");
        push_str(v, ls[i].ty.as_str());
        push_str(v, ", ");
        i = i + 1;
        assert(v@ =~= old(v)@ + lane_params(lv.take(i as int)));
    }
    assert(lv.take(ls@.len() as int) =~= lv);
}

fn push_lane_inits(v: &mut Vec<char>, ls: &Vec<Lane>)
    ensures
        final(v)@ == old(v)@ + lane_inits(lanes_view(ls@)),
{
    let ghost lv = lanes_view(ls@);
    let mut i: usize = 0;
    while i < ls.len()
        invariant
            i <= ls@.len(),
            lv == lanes_view(ls@),
            v@ == old(v)@ + lane_inits(lv.take(i as int)),
        decreases ls@.len() - i,
    {
        assert(lv.take(i + 1).drop_last() =~= lv.take(i as int));
        assert(lv.take(i + 1).last() == lane_view(ls@[i as int]));
        push_str(v, ls[i].field.as_str());
        push_str(v, ", ");
        i = i + 1;
        assert(v@ =~= old(v)@ + lane_inits(lv.take(i as int)));
    }
    assert(lv.take(ls@.len() as int) =~= lv);
}

fn push_lane_getters(v: &mut Vec<char>, ls: &Vec<Lane>)
    ensures
        final(v)@ == old(v)@ + lane_getters(lanes_view(ls@)),
{
    let ghost lv = lanes_view(ls@);
    let mut i: usize = 0;
    while i < ls.len()
        invariant
            i <= ls@.len(),
            lv == lanes_view(ls@),
            v@ == old(v)@ + lane_getters(lv.take(i as int)),
        decreases ls@.len() - i,
    {
        assert(lv.take(i + 1).drop_last() =~= lv.take(i as int));
        assert(lv.take(i + 1).last() == lane_view(ls@[i as int]));
        push_str(v, "    fn ");
        push_str(v, ls[i].field.as_str());
        push_str(v, "(&'static self) -> &'static ");
        push_str(v, ls[i].ty.as_str());
        push_str(v, " {\n        &self.");
        push_str(v, ls[i].field.as_str());
        push_str(v, "\n    }\n");
        i = i + 1;
        assert(v@ =~= old(v)@ + lane_getters(lv.take(i as int)));
    }
    assert(lv.take(ls@.len() as int) =~= lv);
}

/// The statements of one lane's routes in one direction, and whether there
/// is any.
fn route_stmts(rs: &Vec<Route>, into_state: bool) -> (r: (Vec<char>, bool))
    ensures
        r.0@ == (if into_state {
            update_stmts(routes_view(rs@))
        } else {
            write_stmts(routes_view(rs@))
        }),
        r.1 == has_route(routes_view(rs@), into_state),
{
    let ghost rv = routes_view(rs@);
    let mut v: Vec<char> = Vec::new();
    let mut any = false;
    let mut i: usize = 0;
    while i < rs.len()
        invariant
            i <= rs@.len(),
            rv == routes_view(rs@),
            v@ == (if into_state {
                update_stmts(rv.take(i as int))
            } else {
                write_stmts(rv.take(i as int))
            }),
            any == has_route(rv.take(i as int), into_state),
        decreases rs@.len() - i,
    {
        assert(rv.take(i + 1).drop_last() =~= rv.take(i as int));
        assert(rv.take(i + 1).last() == rs@[i as int]@);
        let r = &rs[i];
        if r.into_state == into_state {
            if into_state {
                push_str(&mut v, "        state.");
                push_str(&mut v, r.state_field.as_str());
                push_str(&mut v, " = data.");
                push_str(&mut v, r.lane_field.as_str());
                push_str(&mut v, ";\n");
            } else {
                push_str(&mut v, "        data.");
                push_str(&mut v, r.lane_field.as_str());
                push_str(&mut v, " = state.");
                push_str(&mut v, r.state_field.as_str());
                push_str(&mut v, ";\n");
            }
            any = true;
            assert(rv.take(i + 1)[i as int].into_state == into_state);
        } else {
            assert forall|k: int| 0 <= k < i + 1 && (#[trigger] rv.take(i + 1)[k]).into_state == into_state
                implies has_route(rv.take(i as int), into_state) by {
                assert(rv.take(i as int)[k] == rv.take(i + 1)[k]);
            }
        }
        proof {
            if has_route(rv.take(i as int), into_state) {
                let k = choose|k: int| 0 <= k < i && rv.take(i as int)[k].into_state == into_state;
                assert(rv.take(i + 1)[k] == rv.take(i as int)[k]);
            }
        }
        i = i + 1;
    }
    assert(rv.take(rs@.len() as int) =~= rv);
    (v, any)
}

/// One lane's part of `updates` (into the state) or `writes`.
pub open spec fn lane_routing(e: LaneEntry, into_state: bool) -> Seq<char> {
    if into_state {
        if has_route(e.2, true) {
            "        if let Some(data) = self."@ + e.0 + ".read() {\n"@ + update_stmts(e.2)
                + "        }\n"@
        } else {
            Seq::empty()
        }
    } else {
        if has_route(e.2, false) {
            "        if let Some(mut data) = self."@ + e.0 + ".read() {\n"@ + write_stmts(e.2)
                + "            self."@ + e.0 + ".write(data);\n        }\n"@
        } else {
            Seq::empty()
        }
    }
}

fn push_lane_routing(v: &mut Vec<char>, lane: &Lane, into_state: bool)
    ensures
        final(v)@ == old(v)@ + lane_routing(lane_view(*lane), into_state),
{
    let (mut stmts, any) = route_stmts(&lane.routes, into_state);
    if any {
        if into_state {
            push_str(v, "        if let Some(data) = self.");
            push_str(v, lane.field.as_str());
            push_str(v, ".read() {\n");
            v.append(&mut stmts);
            push_str(v, "        }\n");
        } else {
            push_str(v, "        if let Some(mut data) = self.");
            push_str(v, lane.field.as_str());
            push_str(v, ".read() {\n");
            v.append(&mut stmts);
            push_str(v, "            self.");
            push_str(v, lane.field.as_str());
            push_str(v, ".write(data);\n        }\n");
        }
    }
    assert(v@ =~= old(v)@ + lane_routing(lane_view(*lane), into_state));
}

fn push_routing(v: &mut Vec<char>, ls: &Vec<Lane>, into_state: bool)
    ensures
        final(v)@ == old(v)@ + (if into_state {
            updates(lanes_view(ls@))
        } else {
            writes(lanes_view(ls@))
        }),
{
    let ghost lv = lanes_view(ls@);
    let mut i: usize = 0;
    while i < ls.len()
        invariant
            i <= ls@.len(),
            lv == lanes_view(ls@),
            v@ == old(v)@ + (if into_state {
                updates(lv.take(i as int))
            } else {
                writes(lv.take(i as int))
            }),
        decreases ls@.len() - i,
    {
        assert(lv.take(i + 1).drop_last() =~= lv.take(i as int));
        assert(lv.take(i + 1).last() == lane_view(ls@[i as int]));
        push_lane_routing(v, &ls[i], into_state);
        i = i + 1;
        assert(v@ =~= old(v)@ + (if into_state {
            updates(lv.take(i as int))
        } else {
            writes(lv.take(i as int))
        }));
    }
    assert(lv.take(ls@.len() as int) =~= lv);
}

/// The bus derive: a constructor that takes each lane, the state and the
/// emergency stop and places the bus in a static; a `GenericBus` impl whose
/// update reads each lane with `<=` routes into the state and whose write
/// reads each lane with `=>` routes, sets the routed fields and writes it
/// back; and an accessor for each lane.
pub fn impl_bus(item: &ItemModel) -> (r: Result<String, MacroError>)
    requires
        item@.data matches DataView::Struct(fs) ==> tokens_bounded(fs),
    ensures
        result_view(r) == spec_impl_bus(item@),
{
    let fs = match &item.data {
        DataModel::Struct(fs) => fs,
        _ => return Err(error("impl_bus only supports structs")),
    };
    let lanes = match collect_lanes(fs) {
        Ok(ls) => ls,
        Err(e) => return Err(MacroError { message: e }),
    };
    let s = match crate::codegen::derive::find_last_with_attr(fs, "state") {
        Some(i) => &fs[i],
        None => return Err(error("missing #[state] field")),
    };
    let name = &item.name;
    let mut v: Vec<char> = Vec::new();
    push_str(&mut v, "impl ");
    push_str(&mut v, name.as_str());
    push_str(&mut v, " {\n    pub fn new(");
    push_lane_params(&mut v, &lanes);
    push_str(&mut v, s.name.as_str());
    push_str(&mut v, ": ");
    push_str(&mut v, s.ty.as_str());
    push_str(&mut v, ", estop: ::Oreos::hal::EstopFlag) -> &'static Self {\n        static __");
    push_str(&mut v, name.as_str());
    push_str(&mut v, "__: ::static_cell::StaticCell<");
    push_str(&mut v, name.as_str());
    push_str(&mut v, "> = ::static_cell::StaticCell::new();\n        __");
    push_str(&mut v, name.as_str());
    push_str(&mut v, "__.init(Self { ");
    push_lane_inits(&mut v, &lanes);
    push_str(&mut v, s.name.as_str());
    push_str(&mut v, ", estop })\n    }\n}\nimpl ::Oreos::hal::GenericBus<");
    push_str(&mut v, s.ty.as_str());
    push_str(&mut v, "> for ");
    push_str(&mut v, name.as_str());
    push_str(
        &mut v,
        " {\n    fn estop(&self) -> &::Oreos::hal::EstopFlag {\n        &self.estop\n    }\n    fn update(&self, state: &mut ",
    );
    push_str(&mut v, s.ty.as_str());
    push_str(&mut v, ") {\n");
    push_routing(&mut v, &lanes, true);
    push_str(&mut v, "    }\n    fn write(&self, state: &");
    push_str(&mut v, s.ty.as_str());
    push_str(&mut v, ") {\n");
    push_routing(&mut v, &lanes, false);
    push_str(&mut v, "    }\n}\nimpl ");
    push_str(&mut v, name.as_str());
    push_str(&mut v, " {\n");
    push_lane_getters(&mut v, &lanes);
    push_str(&mut v, "}\n");
    Ok(string_from_chars(&v))
}

} // verus!
