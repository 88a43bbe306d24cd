//! The expansion of `#[derive(IoAccess)]`: the named fields marked
//! `#[io(kind = "...")]` become the parameters of a constructor, each with a
//! `<field>_mut` accessor, and the type gets the `IoAccess` marker impl.

use vstd::prelude::*;
use crate::codegen::derive::result_view;
use crate::codegen::model::{
    error, fields_view, toks_view, AttrModel, AttrView, DataModel, DataView,
    FieldModel, FieldView, ItemModel, ItemView, MacroError, Tok, TokView,
};
use crate::codegen::routes::is_punct;
use crate::text::{chars_of, push_str, string_from_chars};

verus! {

/// The kind of access an `io` field gives.
#[derive(Clone, Copy, PartialEq, Eq, Structural)]
pub enum IoKind {
    Pwm,
    Analog,
    Digital,
    Transport,
}

/// The kind a string names; other strings name none.
pub open spec fn io_kind_of(value: Seq<char>) -> Option<IoKind> {
    if value == "pwm"@ {
        Some(IoKind::Pwm)
    } else if value == "analog"@ {
        Some(IoKind::Analog)
    } else if value == "digital"@ {
        Some(IoKind::Digital)
    } else if value == "transport"@ {
        Some(IoKind::Transport)
    } else {
        None
    }
}

/// The value of a string literal token, `"..."` or `r"..."`, taken as
/// written between its quotes.
pub open spec fn str_lit_value(t: TokView) -> Option<Seq<char>> {
    match t {
        TokView::Other(s) => if s.len() >= 2 && s[0] == '"' && s.last() == '"' {
            Some(s.subrange(1, s.len() - 1))
        } else if s.len() >= 3 && s[0] == 'r' && s[1] == '"' && s.last() == '"' {
            Some(s.subrange(2, s.len() - 1))
        } else {
            None
        },
        _ => None,
    }
}

/// The arguments of an `io` attribute, `name = "kind"`: the string's value.
pub open spec fn spec_io_args(a: AttrView) -> Result<Seq<char>, Seq<char>> {
    match a.list_tokens {
        None => Err("expected attribute arguments in parentheses: #[io(...)]"@),
        Some(t) => if t.len() < 1 {
            Err("unexpected end of input, expected identifier"@)
        } else if !(t[0] is Ident) {
            Err("expected identifier"@)
        } else if t.len() < 2 {
            Err("unexpected end of input, expected `=`"@)
        } else if !is_punct(t[1], '=') {
            Err("expected `=`"@)
        } else if t.len() < 3 {
            Err("unexpected end of input, expected string literal"@)
        } else if str_lit_value(t[2]) is None {
            Err("expected string literal"@)
        } else if t.len() > 3 {
            Err("unexpected token"@)
        } else {
            Ok(str_lit_value(t[2])->Some_0)
        },
    }
}

/// A field with access: its name, its type and its kind.
pub type IoEntry = (Seq<char>, Seq<char>, IoKind);

/// A tuple field is named by its index.
pub open spec fn is_named(f: FieldView) -> bool {
    f.name.len() > 0 && !('0' <= f.name[0] && f.name[0] <= '9')
}

/// The entries of one field's `io` attributes, in order: one per attribute
/// naming a kind; the first attribute whose arguments do not parse is the
/// error.
pub open spec fn field_io(f: FieldView, attrs: Seq<AttrView>) -> Result<Seq<IoEntry>, Seq<char>>
    decreases attrs.len(),
{
    if attrs.len() == 0 {
        Ok(Seq::empty())
    } else {
        match field_io(f, attrs.drop_last()) {
            Err(e) => Err(e),
            Ok(prev) => if attrs.last().path == "io"@ {
                match spec_io_args(attrs.last()) {
                    Err(e) => Err(e),
                    Ok(v) => match io_kind_of(v) {
                        Some(k) => Ok(prev.push((f.name, f.ty, k))),
                        None => Ok(prev),
                    },
                }
            } else {
                Ok(prev)
            },
        }
    }
}

/// The entries of all named fields, in order.
pub open spec fn io_entries(fs: Seq<FieldView>) -> Result<Seq<IoEntry>, Seq<char>>
    decreases fs.len(),
{
    if fs.len() == 0 {
        Ok(Seq::empty())
    } else {
        match io_entries(fs.drop_last()) {
            Err(e) => Err(e),
            Ok(prev) => if is_named(fs.last()) {
                match field_io(fs.last(), fs.last().attrs) {
                    Err(e) => Err(e),
                    Ok(more) => Ok(prev + more),
                }
            } else {
                Ok(prev)
            },
        }
    }
}

/// The bound a field's type gets on the impl: pwm fields set a duty cycle,
/// digital fields are input and output pins; other kinds get none.
pub open spec fn bound_of(e: IoEntry) -> Option<Seq<char>> {
    if e.2 == IoKind::Pwm {
        Some(e.1 + ": ::embedded_hal::pwm::SetDutyCycle"@)
    } else if e.2 == IoKind::Digital {
        Some(e.1 + ": ::embedded_hal::digital::InputPin + ::embedded_hal::digital::OutputPin"@)
    } else {
        None
    }
}

/// The bounds of the fields, in order, separated by commas.
pub open spec fn bounds_text(es: Seq<IoEntry>) -> Seq<char>
    decreases es.len(),
{
    if es.len() == 0 {
        Seq::empty()
    } else {
        let prev = bounds_text(es.drop_last());
        match bound_of(es.last()) {
            None => prev,
            Some(b) => if prev.len() == 0 {
                b
            } else {
                prev + ", "@ + b
            },
        }
    }
}

/// The item's where clause with the bounds added after its own predicates
/// (a comma between, unless it already ends with one); `where` and the
/// bounds if it has none.
pub open spec fn io_where(w: Seq<char>, bounds: Seq<char>) -> Seq<char> {
    if bounds.len() == 0 {
        w
    } else if w.len() == 0 {
        "where "@ + bounds
    } else if w.last() == ',' {
        w + " "@ + bounds
    } else {
        w + ", "@ + bounds
    }
}

pub open spec fn io_params(es: Seq<IoEntry>) -> Seq<char>
    decreases es.len(),
{
    if es.len() == 0 {
        Seq::empty()
    } else if es.len() == 1 {
        es[0].0 + ": "@ + es[0].1
    } else {
        io_params(es.drop_last()) + ", "@ + es.last().0 + ": "@ + es.last().1
    }
}

pub open spec fn io_names(es: Seq<IoEntry>) -> Seq<char>
    decreases es.len(),
{
    if es.len() == 0 {
        Seq::empty()
    } else if es.len() == 1 {
        es[0].0
    } else {
        io_names(es.drop_last()) + ", "@ + es.last().0
    }
}

pub open spec fn io_getters(es: Seq<IoEntry>) -> Seq<char>
    decreases es.len(),
{
    if es.len() == 0 {
        Seq::empty()
    } else {
        let e = es.last();
        io_getters(es.drop_last()) + "    pub fn "@ + e.0 + "_mut(&mut self) -> &mut "@ + e.1
            + " {\n        &mut self."@ + e.0 + "\n    }\n"@
    }
}

/// The marker impl and the impl with the constructor and the accessors.
pub open spec fn io_expansion(item: ItemView, es: Seq<IoEntry>) -> Seq<char> {
    "impl "@ + item.impl_generics + " IoAccess for "@ + item.name + item.type_generics + " {}\n"@
        + "impl "@ + item.impl_generics + " "@ + item.name + item.type_generics + " "@
        + io_where(item.where_clause, bounds_text(es)) + " {\n    fn new("@ + io_params(es) + ") -> Self {\n        Self { "@
        + io_names(es) + " }\n    }\n"@ + io_getters(es) + "}\n"@
}

/// What the derive gives: an error for anything but a struct or for an `io`
/// attribute that does not parse, otherwise the expansion.
pub open spec fn spec_access_io(item: ItemView) -> Result<Seq<char>, Seq<char>> {
    match item.data {
        DataView::Struct(fs) => match io_entries(fs) {
            Err(e) => Err(e),
            Ok(es) => Ok(io_expansion(item, es)),
        },
        _ => Err("IoAccess can only be derived for structs"@),
    }
}

// ── Generation ──────────────────────────────────────────────────────────────

fn str_lit_at(t: &Vec<Tok>, i: usize) -> (r: Option<String>)
    requires
        i < t@.len(),
    ensures
        opt_seq(r) == str_lit_value(toks_view(t@)[i as int]),
{
    assert(toks_view(t@)[i as int] == t@[i as int]@);
    match &t[i] {
        Tok::Other(s) => {
            let cs = chars_of(s.as_str());
            let n = cs.len();
            if n >= 2 && cs[0] == '"' && cs[n - 1] == '"' {
                let mut v: Vec<char> = Vec::new();
                let mut k: usize = 1;
                while k < n - 1
                    invariant
                        cs@ == s@,
                        n == cs@.len(),
                        n >= 2,
                        1 <= k <= n - 1,
                        v@ == cs@.subrange(1, k as int),
                    decreases n - 1 - k,
                {
                    v.push(cs[k]);
                    k = k + 1;
                    assert(v@ =~= cs@.subrange(1, k as int));
                }
                Some(string_from_chars(&v))
            } else if n >= 3 && cs[0] == 'r' && cs[1] == '"' && cs[n - 1] == '"' {
                let mut v: Vec<char> = Vec::new();
                let mut k: usize = 2;
                while k < n - 1
                    invariant
                        cs@ == s@,
                        n == cs@.len(),
                        n >= 3,
                        2 <= k <= n - 1,
                        v@ == cs@.subrange(2, k as int),
                    decreases n - 1 - k,
                {
                    v.push(cs[k]);
                    k = k + 1;
                    assert(v@ =~= cs@.subrange(2, k as int));
                }
                Some(string_from_chars(&v))
            } else {
                None
            }
        },
        _ => None,
    }
}

pub open spec fn opt_seq(o: Option<String>) -> Option<Seq<char>> {
    match o {
        Some(s) => Some(s@),
        None => None,
    }
}

fn io_args(a: &AttrModel) -> (r: Result<String, String>)
    ensures
        match r {
            Ok(v) => spec_io_args(a@) == Ok::<Seq<char>, Seq<char>>(v@),
            Err(e) => spec_io_args(a@) == Err::<Seq<char>, Seq<char>>(e@),
        },
{
    let t = match &a.list_tokens {
        None => return Err("expected attribute arguments in parentheses: #[io(...)]".to_owned()),
        Some(t) => t,
    };
    let ghost tv = toks_view(t@);
    if t.len() < 1 {
        return Err("unexpected end of input, expected identifier".to_owned());
    }
    assert(tv[0] == t@[0]@);
    match &t[0] {
        Tok::Ident(_) => {},
        _ => return Err("expected identifier".to_owned()),
    }
    if t.len() < 2 {
        return Err("unexpected end of input, expected `=`".to_owned());
    }
    assert(tv[1] == t@[1]@);
    let eq = match &t[1] {
        Tok::Punct(c, _) => *c == '=',
        _ => false,
    };
    if !eq {
        return Err("expected `=`".to_owned());
    }
    if t.len() < 3 {
        return Err("unexpected end of input, expected string literal".to_owned());
    }
    let value = match str_lit_at(t, 2) {
        Some(v) => v,
        None => return Err("expected string literal".to_owned()),
    };
    if t.len() > 3 {
        return Err("unexpected token".to_owned());
    }
    Ok(value)
}

/// A field with access, as the generator holds it.
pub struct IoField {
    pub name: String,
    pub ty: String,
    pub kind: IoKind,
}

pub open spec fn io_field_view(f: IoField) -> IoEntry {
    (f.name@, f.ty@, f.kind)
}

pub open spec fn io_fields_view(v: Seq<IoField>) -> Seq<IoEntry> {
    v.map_values(|f: IoField| io_field_view(f))
}

fn kind_of(value: &str) -> (k: Option<IoKind>)
    ensures
        k == io_kind_of(value@),
{
    if crate::text::same_text(value, "pwm") {
        Some(IoKind::Pwm)
    } else if crate::text::same_text(value, "analog") {
        Some(IoKind::Analog)
    } else if crate::text::same_text(value, "digital") {
        Some(IoKind::Digital)
    } else if crate::text::same_text(value, "transport") {
        Some(IoKind::Transport)
    } else {
        None
    }
}

fn named(f: &FieldModel) -> (b: bool)
    ensures
        b == is_named(f@),
{
    let cs = chars_of(f.name.as_str());
    cs.len() > 0 && !('0' <= cs[0] && cs[0] <= '9')
}

proof fn lemma_field_io_err(f: FieldView, attrs: Seq<AttrView>, j: int, e: Seq<char>)
    requires
        0 <= j < attrs.len(),
        field_io(f, attrs.take(j)) is Ok,
        attrs[j].path == "io"@,
        spec_io_args(attrs[j]) == Err::<Seq<char>, Seq<char>>(e),
    ensures
        field_io(f, attrs) == Err::<Seq<IoEntry>, Seq<char>>(e),
    decreases attrs.len(),
{
    if j == attrs.len() - 1 {
        assert(attrs.drop_last() =~= attrs.take(j));
    } else {
        assert(attrs.drop_last().take(j) =~= attrs.take(j));
        lemma_field_io_err(f, attrs.drop_last(), j, e);
    }
}

proof fn lemma_io_entries_err(fs: Seq<FieldView>, i: int, e: Seq<char>)
    requires
        0 <= i < fs.len(),
        io_entries(fs.take(i)) is Ok,
        is_named(fs[i]),
        field_io(fs[i], fs[i].attrs) == Err::<Seq<IoEntry>, Seq<char>>(e),
    ensures
        io_entries(fs) == Err::<Seq<IoEntry>, Seq<char>>(e),
    decreases fs.len(),
{
    if i == fs.len() - 1 {
        assert(fs.drop_last() =~= fs.take(i));
    } else {
        assert(fs.drop_last().take(i) =~= fs.take(i));
        lemma_io_entries_err(fs.drop_last(), i, e);
    }
}

fn collect_field_io(f: &FieldModel, out: &mut Vec<IoField>) -> (r: Result<(), String>)
    ensures
        match r {
            Ok(_) => field_io(f@, f@.attrs) matches Ok(more) && io_fields_view(final(out)@)
                == io_fields_view(old(out)@) + more,
            Err(e) => field_io(f@, f@.attrs) == Err::<Seq<IoEntry>, Seq<char>>(e@),
        },
{
    let ghost start = io_fields_view(out@);
    let ghost av = f@.attrs;
    let mut j: usize = 0;
    assert(av.take(0) =~= Seq::<AttrView>::empty());
    while j < f.attrs.len()
        invariant
            j <= f.attrs@.len(),
            av == f@.attrs,
            av.len() == f.attrs@.len(),
            field_io(f@, av.take(j as int)) matches Ok(more) && io_fields_view(out@) == start + more,
        decreases f.attrs@.len() - j,
    {
        let a = &f.attrs[j];
        assert(av[j as int] == a@);
        assert(av.take(j + 1).drop_last() =~= av.take(j as int));
        assert(av.take(j + 1).last() == a@);
        let ghost more = field_io(f@, av.take(j as int))->Ok_0;
        if crate::text::same_text(a.path.as_str(), "io") {
            let value = match io_args(a) {
                Ok(v) => v,
                Err(e) => {
                    proof {
                        lemma_field_io_err(f@, av, j as int, e@);
                    }
                    return Err(e);
                },
            };
            match kind_of(value.as_str()) {
                Some(k) => {
                    let fld = IoField { name: f.name.clone(), ty: f.ty.clone(), kind: k };
                    let ghost fv = io_field_view(fld);
                    let ghost before = io_fields_view(out@);
                    out.push(fld);
                    assert(io_fields_view(out@) =~= before.push(fv));
                    assert(start + more.push(fv) =~= (start + more).push(fv));
                },
                None => {},
            }
        }
        j = j + 1;
    }
    assert(av.take(f.attrs@.len() as int) =~= av);
    Ok(())
}

fn collect_io(fs: &Vec<FieldModel>) -> (r: Result<Vec<IoField>, String>)
    ensures
        match r {
            Ok(v) => io_entries(fields_view(fs@)) == Ok::<Seq<IoEntry>, Seq<char>>(io_fields_view(v@)),
            Err(e) => io_entries(fields_view(fs@)) == Err::<Seq<IoEntry>, Seq<char>>(e@),
        },
{
    let ghost fv = fields_view(fs@);
    let mut out: Vec<IoField> = Vec::new();
    let mut i: usize = 0;
    assert(io_fields_view(out@) =~= Seq::<IoEntry>::empty());
    while i < fs.len()
        invariant
            i <= fs@.len(),
            fv == fields_view(fs@),
            io_entries(fv.take(i as int)) == Ok::<Seq<IoEntry>, Seq<char>>(io_fields_view(out@)),
        decreases fs@.len() - i,
    {
        let f = &fs[i];
        assert(fv[i as int] == f@);
        assert(fv.take(i + 1).drop_last() =~= fv.take(i as int));
        assert(fv.take(i + 1).last() == f@);
        if named(f) {
            match collect_field_io(f, &mut out) {
                Ok(_) => {},
                Err(e) => {
                    proof {
                        lemma_io_entries_err(fv, i as int, e@);
                    }
                    return Err(e);
                },
            }
        }
        i = i + 1;
    }
    assert(fv.take(fs@.len() as int) =~= fv);
    Ok(out)
}

fn push_io_lists(v: &mut Vec<char>, es: &Vec<IoField>, names_only: bool)
    ensures
        final(v)@ == old(v)@ + (if names_only {
            io_names(io_fields_view(es@))
        } else {
            io_params(io_fields_view(es@))
        }),
{
    let ghost ev = io_fields_view(es@);
    let mut i: usize = 0;
    while i < es.len()
        invariant
            i <= es@.len(),
            ev == io_fields_view(es@),
            v@ == old(v)@ + (if names_only {
                io_names(ev.take(i as int))
            } else {
                io_params(ev.take(i as int))
            }),
        decreases es@.len() - i,
    {
        assert(ev.take(i + 1).drop_last() =~= ev.take(i as int));
        assert(ev.take(i + 1).last() == io_field_view(es@[i as int]));
        if i > 0 {
            push_str(v, ", ");
        } else {
            assert(ev.take(1)[0] == ev.take(1).last());
        }
        push_str(v, es[i].name.as_str());
        if !names_only {
            push_str(v, ": ");
            push_str(v, es[i].ty.as_str());
        }
        i = i + 1;
        assert(v@ =~= old(v)@ + (if names_only {
            io_names(ev.take(i as int))
        } else {
            io_params(ev.take(i as int))
        }));
    }
    assert(ev.take(es@.len() as int) =~= ev);
}

fn push_getters(v: &mut Vec<char>, es: &Vec<IoField>)
    ensures
        final(v)@ == old(v)@ + io_getters(io_fields_view(es@)),
{
    let ghost ev = io_fields_view(es@);
    let mut i: usize = 0;
    while i < es.len()
        invariant
            i <= es@.len(),
            ev == io_fields_view(es@),
            v@ == old(v)@ + io_getters(ev.take(i as int)),
        decreases es@.len() - i,
    {
        assert(ev.take(i + 1).drop_last() =~= ev.take(i as int));
        assert(ev.take(i + 1).last() == io_field_view(es@[i as int]));
        push_str(v, "    pub fn ");
        push_str(v, es[i].name.as_str());
        push_str(v, "_mut(&mut self) -> &mut ");
        push_str(v, es[i].ty.as_str());
        push_str(v, " {\n        &mut self.");
        push_str(v, es[i].name.as_str());
        push_str(v, "\n    }\n");
        i = i + 1;
        assert(v@ =~= old(v)@ + io_getters(ev.take(i as int)));
    }
    assert(ev.take(es@.len() as int) =~= ev);
}

fn bounds_chars(es: &Vec<IoField>) -> (v: Vec<char>)
    ensures
        v@ == bounds_text(io_fields_view(es@)),
{
    let ghost ev = io_fields_view(es@);
    let mut v: Vec<char> = Vec::new();
    let mut i: usize = 0;
    while i < es.len()
        invariant
            i <= es@.len(),
            ev == io_fields_view(es@),
            v@ == bounds_text(ev.take(i as int)),
        decreases es@.len() - i,
    {
        assert(ev.take(i + 1).drop_last() =~= ev.take(i as int));
        assert(ev.take(i + 1).last() == io_field_view(es@[i as int]));
        let k = es[i].kind;
        if k == IoKind::Pwm || k == IoKind::Digital {
            if v.len() > 0 {
                push_str(&mut v, ", ");
            }
            push_str(&mut v, es[i].ty.as_str());
            if k == IoKind::Pwm {
                push_str(&mut v, ": ::embedded_hal::pwm::SetDutyCycle");
            } else {
                push_str(&mut v, ": ::embedded_hal::digital::InputPin + ::embedded_hal::digital::OutputPin");
            }
        }
        i = i + 1;
        assert(v@ =~= bounds_text(ev.take(i as int)));
    }
    assert(ev.take(es@.len() as int) =~= ev);
    v
}

fn push_where(v: &mut Vec<char>, w: &str, bounds: &Vec<char>)
    ensures
        final(v)@ == old(v)@ + io_where(w@, bounds@),
{
    let wc = chars_of(w);
    let mut b = bounds.clone();
    assert(b@ == bounds@);
    if bounds.len() == 0 {
        push_str(v, w);
    } else if wc.len() == 0 {
        push_str(v, "where ");
        v.append(&mut b);
    } else if wc[wc.len() - 1] == ',' {
        push_str(v, w);
        push_str(v, " ");
        v.append(&mut b);
    } else {
        push_str(v, w);
        push_str(v, ", ");
        v.append(&mut b);
    }
}

/// The `IoAccess` derive: for a struct, the fields marked `#[io(kind =
/// "pwm" | "analog" | "digital" | "transport")]` (other kinds are ignored)
/// become the parameters of `new`, in order, each with a `<field>_mut`
/// accessor, and the type gets an empty `IoAccess` impl. The impl with the
/// constructor bounds each pwm field's type by `SetDutyCycle` and each
/// digital field's type by `InputPin + OutputPin`. Anything but a struct, or
/// an `io` attribute that is not `name = "kind"`, is an error.
pub fn create_access_io(item: &ItemModel) -> (r: Result<String, MacroError>)
    ensures
        result_view(r) == spec_access_io(item@),
{
    let fs = match &item.data {
        DataModel::Struct(fs) => fs,
        _ => return Err(error("IoAccess can only be derived for structs")),
    };
    let es = match collect_io(fs) {
        Ok(es) => es,
        Err(e) => return Err(MacroError { message: e }),
    };
    let mut v: Vec<char> = Vec::new();
    push_str(&mut v, "impl ");
    push_str(&mut v, item.impl_generics.as_str());
    push_str(&mut v, " IoAccess for ");
    push_str(&mut v, item.name.as_str());
    push_str(&mut v, item.type_generics.as_str());
    push_str(&mut v, " {}\n");
    push_str(&mut v, "impl ");
    push_str(&mut v, item.impl_generics.as_str());
    push_str(&mut v, " ");
    push_str(&mut v, item.name.as_str());
    push_str(&mut v, item.type_generics.as_str());
    push_str(&mut v, " ");
    let bounds = bounds_chars(&es);
    push_where(&mut v, item.where_clause.as_str(), &bounds);
    push_str(&mut v, " {\n    fn new(");
    let ghost head = v@;
    push_io_lists(&mut v, &es, false);
    assert(v@ == head + io_params(io_fields_view(es@)));
    push_str(&mut v, ") -> Self {\n        Self { ");
    let ghost mid = v@;
    push_io_lists(&mut v, &es, true);
    assert(v@ == mid + io_names(io_fields_view(es@)));
    push_str(&mut v, " }\n    }\n");
    push_getters(&mut v, &es);
    push_str(&mut v, "}\n");
    assert(v@ =~= io_expansion(item@, io_fields_view(es@)));
    Ok(string_from_chars(&v))
}

} // verus!
