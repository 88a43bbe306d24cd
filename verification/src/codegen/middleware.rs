//! The expansion of `#[middleware]` on an impl block: each method marked
//! `#[on(Command::Variant)]` handles that variant of a command enum, and the
//! impl gains a `callback_match` that dispatches a command to its handlers.
//! A variant with named fields also gets a struct of the same fields, which
//! the handler receives.

use vstd::prelude::*;
use convert_case::{Case, Casing};
use crate::codegen::bus::token_count_ok;
use crate::codegen::derive::result_view;
use crate::codegen::model::{attrs_view, toks_view, AttrModel, AttrView, MacroError, Tok, TokView};
use crate::codegen::routes::{ident_at, is_path_sep, parse_path, path_sep_at, spec_path};
use crate::cli::scanner::strings_view;
use crate::text::{decimal, decimal_chars_u64, push_str, string_from_chars};

verus! {

// ── Models ──────────────────────────────────────────────────────────────────

/// The fields of an enum variant: none, positional (how many), or named
/// (each name with its type as token text).
pub enum VariantFields {
    Unit,
    Unnamed(usize),
    Named(Vec<(String, String)>),
}

pub struct VariantModel {
    pub name: String,
    pub fields: VariantFields,
}

/// A command type the expansion can look up: its name and, for an enum, its
/// variants.
pub struct CommandModel {
    pub name: String,
    pub variants: Option<Vec<VariantModel>>,
}

/// An item of the impl block. A method is held as its name, its attributes,
/// and the rest of its text after the attributes.
pub enum ImplItemModel {
    Fn { name: String, attrs: Vec<AttrModel>, rest: String },
    Other(String),
}

/// The impl block: the type it is for, as token text, and its items.
pub struct ImplModel {
    pub self_ty: String,
    pub items: Vec<ImplItemModel>,
}

pub enum FieldsView {
    Unit,
    Unnamed(nat),
    Named(Seq<(Seq<char>, Seq<char>)>),
}

pub struct VariantView {
    pub name: Seq<char>,
    pub fields: FieldsView,
}

pub struct CommandView {
    pub name: Seq<char>,
    pub variants: Option<Seq<VariantView>>,
}

pub enum ImplItemView {
    Fn { name: Seq<char>, attrs: Seq<AttrView>, rest: Seq<char> },
    Other(Seq<char>),
}

pub struct ImplView {
    pub self_ty: Seq<char>,
    pub items: Seq<ImplItemView>,
}

pub open spec fn pairs_view(v: Seq<(String, String)>) -> Seq<(Seq<char>, Seq<char>)> {
    v.map_values(|p: (String, String)| (p.0@, p.1@))
}

impl View for VariantModel {
    type V = VariantView;

    open spec fn view(&self) -> VariantView {
        VariantView {
            name: self.name@,
            fields: match self.fields {
                VariantFields::Unit => FieldsView::Unit,
                VariantFields::Unnamed(n) => FieldsView::Unnamed(n as nat),
                VariantFields::Named(fs) => FieldsView::Named(pairs_view(fs@)),
            },
        }
    }
}

pub open spec fn variants_view(v: Seq<VariantModel>) -> Seq<VariantView> {
    v.map_values(|x: VariantModel| x@)
}

impl View for CommandModel {
    type V = CommandView;

    open spec fn view(&self) -> CommandView {
        CommandView {
            name: self.name@,
            variants: match self.variants {
                Some(vs) => Some(variants_view(vs@)),
                None => None,
            },
        }
    }
}

pub open spec fn commands_view(v: Seq<CommandModel>) -> Seq<CommandView> {
    v.map_values(|c: CommandModel| c@)
}

impl View for ImplItemModel {
    type V = ImplItemView;

    open spec fn view(&self) -> ImplItemView {
        match self {
            ImplItemModel::Fn { name, attrs, rest } => ImplItemView::Fn {
                name: name@,
                attrs: attrs_view(attrs@),
                rest: rest@,
            },
            ImplItemModel::Other(t) => ImplItemView::Other(t@),
        }
    }
}

pub open spec fn impl_items_view(v: Seq<ImplItemModel>) -> Seq<ImplItemView> {
    v.map_values(|i: ImplItemModel| i@)
}

impl View for ImplModel {
    type V = ImplView;

    open spec fn view(&self) -> ImplView {
        ImplView { self_ty: self.self_ty@, items: impl_items_view(self.items@) }
    }
}

// ── What the expansion reads ────────────────────────────────────────────────

/// The path of an `on` attribute: its first segment (the command type) and
/// its last (the variant); it must be the whole of the arguments.
pub open spec fn spec_on_path(a: AttrView) -> Result<(Seq<char>, Seq<char>), Seq<char>> {
    match a.list_tokens {
        None => Err("expected attribute arguments in parentheses: #[on(...)]"@),
        Some(t) => match spec_path(t, 0) {
            Err(e) => Err(e),
            Ok((last, k)) => if k < t.len() {
                Err("unexpected token"@)
            } else {
                let j = if is_path_sep(t, 0) {
                    2int
                } else {
                    0int
                };
                Ok((t[j]->Ident_0, last))
            },
        },
    }
}

/// The first command of that name.
pub open spec fn find_command(cs: Seq<CommandView>, name: Seq<char>) -> Option<CommandView>
    decreases cs.len(),
{
    if cs.len() == 0 {
        None
    } else if cs[0].name == name {
        Some(cs[0])
    } else {
        find_command(cs.skip(1), name)
    }
}

/// The first variant of that name.
pub open spec fn find_variant(vs: Seq<VariantView>, name: Seq<char>) -> Option<VariantView>
    decreases vs.len(),
{
    if vs.len() == 0 {
        None
    } else if vs[0].name == name {
        Some(vs[0])
    } else {
        find_variant(vs.skip(1), name)
    }
}

/// `pub name: type` for each named field, separated by commas.
pub open spec fn field_decls(fs: Seq<(Seq<char>, Seq<char>)>) -> Seq<char>
    decreases fs.len(),
{
    if fs.len() == 0 {
        Seq::empty()
    } else if fs.len() == 1 {
        "pub "@ + fs[0].0 + ": "@ + fs[0].1
    } else {
        field_decls(fs.drop_last()) + ", "@ + "pub "@ + fs.last().0 + ": "@ + fs.last().1
    }
}

/// The field names, separated by commas.
pub open spec fn field_names(fs: Seq<(Seq<char>, Seq<char>)>) -> Seq<char>
    decreases fs.len(),
{
    if fs.len() == 0 {
        Seq::empty()
    } else if fs.len() == 1 {
        fs[0].0
    } else {
        field_names(fs.drop_last()) + ", "@ + fs.last().0
    }
}

/// `field0, field1, ...` for `n` positional fields.
pub open spec fn positional(n: nat) -> Seq<char>
    decreases n,
{
    if n == 0 {
        Seq::empty()
    } else if n == 1 {
        "field0"@
    } else {
        positional((n - 1) as nat) + ", "@ + "field"@ + decimal((n - 1) as nat)
    }
}

/// The struct a variant with named fields gets: the variant's name, every
/// field public.
pub open spec fn struct_def(v: VariantView) -> Seq<char> {
    match v.fields {
        FieldsView::Named(fs) => "pub struct "@ + v.name + " { "@ + field_decls(fs) + " }\n"@,
        _ => Seq::empty(),
    }
}

/// What `convert_case` makes of a name in `Case::Pascal`.
pub uninterp spec fn pascal_cased(s: Seq<char>) -> Seq<char>;

/// The match arm that hands the variant to `handler`: positional fields in
/// order after the state and configuration, named fields gathered into the
/// variant's struct (named in Pascal case).
pub open spec fn arm_text(cmd: Seq<char>, v: VariantView, handler: Seq<char>) -> Seq<char> {
    match v.fields {
        FieldsView::Unit => cmd + "::"@ + v.name + " => Self::"@ + handler + "(state, config)"@,
        FieldsView::Unnamed(n) => cmd + "::"@ + v.name + "("@ + positional(n) + ") => Self::"@
            + handler + "(state, config, "@ + positional(n) + ")"@,
        FieldsView::Named(fs) => cmd + "::"@ + v.name + " { "@ + field_names(fs)
            + " } => { Self::"@ + handler + "(state, config, "@ + pascal_cased(v.name) + " { "@
            + field_names(fs) + " }) }"@,
    }
}

/// One `on` attribute of a method: its struct definition and its arm; an
/// error when its path does not parse, or when the command is unknown or
/// lacks the variant; or the expansion stops, when the command is not an
/// enum.
pub enum OnStep {
    Arm(Seq<char>, Seq<char>),
    Fail(Seq<char>),
    Stop,
}

/// The error for a command or variant that is not found.
pub open spec fn not_found(cmd: Seq<char>, variant: Seq<char>) -> Seq<char> {
    "command not "@ + cmd + "::"@ + variant + " found"@
}

pub open spec fn on_step(cs: Seq<CommandView>, handler: Seq<char>, a: AttrView) -> OnStep {
    match spec_on_path(a) {
        Err(e) => OnStep::Fail(e),
        Ok((cmd, variant)) => match find_command(cs, cmd) {
            None => OnStep::Fail(not_found(cmd, variant)),
            Some(c) => match c.variants {
                None => OnStep::Stop,
                Some(vs) => match find_variant(vs, variant) {
                    None => OnStep::Fail(not_found(cmd, variant)),
                    Some(v) => OnStep::Arm(struct_def(v), arm_text(cmd, v, handler)),
                },
            },
        },
    }
}

/// The `on` attributes of a method, in order, each with the method's name.
pub open spec fn fn_on_pairs(name: Seq<char>, attrs: Seq<AttrView>) -> Seq<(Seq<char>, AttrView)>
    decreases attrs.len(),
{
    if attrs.len() == 0 {
        Seq::empty()
    } else {
        fn_on_pairs(name, attrs.drop_last()) + if attrs.last().path == "on"@ {
            seq![(name, attrs.last())]
        } else {
            Seq::empty()
        }
    }
}

/// The `on` attributes of all methods, in order.
pub open spec fn on_pairs(items: Seq<ImplItemView>) -> Seq<(Seq<char>, AttrView)>
    decreases items.len(),
{
    if items.len() == 0 {
        Seq::empty()
    } else {
        on_pairs(items.drop_last()) + match items.last() {
            ImplItemView::Fn { name, attrs, .. } => fn_on_pairs(name, attrs),
            ImplItemView::Other(_) => Seq::empty(),
        }
    }
}

/// The walk over the `on` attributes: the struct definitions and arms so
/// far, or the first failure, or a stop.
pub enum Walk {
    Done { defs: Seq<char>, arms: Seq<Seq<char>> },
    Failed(Seq<char>),
    Stopped,
}

pub open spec fn walk(cs: Seq<CommandView>, ps: Seq<(Seq<char>, AttrView)>) -> Walk
    decreases ps.len(),
{
    if ps.len() == 0 {
        Walk::Done { defs: Seq::empty(), arms: Seq::empty() }
    } else {
        match walk(cs, ps.drop_last()) {
            Walk::Done { defs, arms } => match on_step(cs, ps.last().0, ps.last().1) {
                OnStep::Arm(d, a) => Walk::Done { defs: defs + d, arms: arms.push(a) },
                OnStep::Fail(e) => Walk::Failed(e),
                OnStep::Stop => Walk::Stopped,
            },
            other => other,
        }
    }
}

/// A method's attributes other than `on`, each on a line.
pub open spec fn kept_attrs(attrs: Seq<AttrView>) -> Seq<char>
    decreases attrs.len(),
{
    if attrs.len() == 0 {
        Seq::empty()
    } else {
        kept_attrs(attrs.drop_last()) + if attrs.last().path == "on"@ {
            Seq::empty()
        } else {
            attrs.last().text + "\n"@
        }
    }
}

/// The impl's items, each on a line, methods without their `on` attributes.
pub open spec fn items_text(items: Seq<ImplItemView>) -> Seq<char>
    decreases items.len(),
{
    if items.len() == 0 {
        Seq::empty()
    } else {
        items_text(items.drop_last()) + match items.last() {
            ImplItemView::Fn { attrs, rest, .. } => kept_attrs(attrs) + rest + "\n"@,
            ImplItemView::Other(t) => t + "\n"@,
        }
    }
}

/// The arms, separated by commas.
pub open spec fn joined_arms(arms: Seq<Seq<char>>) -> Seq<char>
    decreases arms.len(),
{
    if arms.len() == 0 {
        Seq::empty()
    } else if arms.len() == 1 {
        arms[0]
    } else {
        joined_arms(arms.drop_last()) + ",\n"@ + arms.last()
    }
}

pub open spec fn middleware_expansion(imp: ImplView, defs: Seq<char>, arms: Seq<Seq<char>>) -> Seq<char> {
    defs + "impl "@ + imp.self_ty + " {\n"@ + items_text(imp.items)
        + "    fn callback_match(&mut self, cmd: __DeviceCommand, state: &mut ::Oreos::hal::DeviceState<__DeviceState>, config: &::Oreos::hal::DeviceConfig<__DeviceConfig>) {\n"@
        + "        ::Oreos::defmt::debug!(\"middleware: dispatching command\");\n        match cmd {\n"@
        + joined_arms(arms) + "\n        }\n    }\n}\n"@
}

/// Whether the expansion stops before it is done.
pub open spec fn spec_middleware_stops(imp: ImplView, cs: Seq<CommandView>) -> bool {
    walk(cs, on_pairs(imp.items)) is Stopped
}

/// What the attribute gives: the first `on` attribute whose path does not
/// parse, or names an unknown command or variant, gives the error; otherwise
/// the struct definitions and the impl with its dispatch.
pub open spec fn spec_middleware(imp: ImplView, cs: Seq<CommandView>) -> Result<Seq<char>, Seq<char>> {
    match walk(cs, on_pairs(imp.items)) {
        Walk::Done { defs, arms } => Ok(middleware_expansion(imp, defs, arms)),
        Walk::Failed(e) => Err(e),
        Walk::Stopped => Err(Seq::empty()),
    }
}

// ── Lemmas ──────────────────────────────────────────────────────────────────

proof fn lemma_walk_push(cs: Seq<CommandView>, ps: Seq<(Seq<char>, AttrView)>, p: (Seq<char>, AttrView))
    ensures
        walk(cs, ps.push(p)) == (match walk(cs, ps) {
            Walk::Done { defs, arms } => match on_step(cs, p.0, p.1) {
                OnStep::Arm(d, a) => Walk::Done { defs: defs + d, arms: arms.push(a) },
                OnStep::Fail(e) => Walk::Failed(e),
                OnStep::Stop => Walk::Stopped,
            },
            other => other,
        }),
{
    assert(ps.push(p).drop_last() =~= ps);
}

/// Once the walk has failed or stopped, more attributes change nothing.
proof fn lemma_walk_settled(cs: Seq<CommandView>, ps: Seq<(Seq<char>, AttrView)>, qs: Seq<(Seq<char>, AttrView)>)
    requires
        !(walk(cs, ps) is Done),
    ensures
        walk(cs, ps + qs) == walk(cs, ps),
    decreases qs.len(),
{
    if qs.len() == 0 {
        assert(ps + qs =~= ps);
    } else {
        lemma_walk_settled(cs, ps, qs.drop_last());
        assert((ps + qs).drop_last() =~= ps + qs.drop_last());
    }
}

proof fn lemma_on_pairs_split(items: Seq<ImplItemView>, i: int)
    requires
        0 <= i <= items.len(),
    ensures
        on_pairs(items) == on_pairs(items.take(i)) + on_pairs(items.skip(i)),
    decreases items.len() - i,
{
    if i == items.len() {
        assert(items.take(i) =~= items);
        assert(items.skip(i) =~= Seq::<ImplItemView>::empty());
        assert(on_pairs(items.take(i)) + Seq::empty() =~= on_pairs(items.take(i)));
    } else {
        lemma_on_pairs_split(items, i + 1);
        assert(items.take(i + 1).drop_last() =~= items.take(i));
        let rest = items.skip(i);
        lemma_on_pairs_prepend(rest);
        assert(rest.skip(1) =~= items.skip(i + 1));
        assert(rest[0] == items.take(i + 1).last());
        assert(on_pairs(items.take(i)) + on_pairs(rest) =~= on_pairs(items.take(i + 1)) + on_pairs(
            items.skip(i + 1),
        ));
    }
}

pub open spec fn item_pairs(it: ImplItemView) -> Seq<(Seq<char>, AttrView)> {
    match it {
        ImplItemView::Fn { name, attrs, .. } => fn_on_pairs(name, attrs),
        ImplItemView::Other(_) => Seq::empty(),
    }
}

proof fn lemma_on_pairs_prepend(items: Seq<ImplItemView>)
    requires
        items.len() > 0,
    ensures
        on_pairs(items) == item_pairs(items[0]) + on_pairs(items.skip(1)),
    decreases items.len(),
{
    if items.len() == 1 {
        assert(items.drop_last() =~= Seq::<ImplItemView>::empty());
        assert(items.skip(1) =~= Seq::<ImplItemView>::empty());
        assert(Seq::<(Seq<char>, AttrView)>::empty() + item_pairs(items[0]) =~= item_pairs(items[0]));
        assert(item_pairs(items[0]) + Seq::<(Seq<char>, AttrView)>::empty() =~= item_pairs(items[0]));
    } else {
        lemma_on_pairs_prepend(items.drop_last());
        assert(items.drop_last().skip(1) =~= items.skip(1).drop_last());
        assert(items.skip(1).last() == items.last());
        assert(items.drop_last()[0] == items[0]);
        assert(item_pairs(items[0]) + on_pairs(items.skip(1).drop_last()) + item_pairs(items.last())
            =~= item_pairs(items[0]) + (on_pairs(items.skip(1).drop_last()) + item_pairs(
            items.last(),
        )));
    }
}

proof fn lemma_fn_pairs_split(name: Seq<char>, attrs: Seq<AttrView>, j: int)
    requires
        0 <= j <= attrs.len(),
    ensures
        fn_on_pairs(name, attrs) == fn_on_pairs(name, attrs.take(j)) + fn_on_pairs(name, attrs.skip(j)),
    decreases attrs.len() - j,
{
    if j == attrs.len() {
        assert(attrs.take(j) =~= attrs);
        assert(attrs.skip(j) =~= Seq::<AttrView>::empty());
        assert(fn_on_pairs(name, attrs.take(j)) + Seq::empty() =~= fn_on_pairs(name, attrs.take(j)));
    } else {
        lemma_fn_pairs_split(name, attrs, j + 1);
        assert(attrs.take(j + 1).drop_last() =~= attrs.take(j));
        lemma_fn_pairs_prepend(name, attrs.skip(j));
        assert(attrs.skip(j).skip(1) =~= attrs.skip(j + 1));
        assert(attrs.skip(j)[0] == attrs.take(j + 1).last());
        let one: Seq<(Seq<char>, AttrView)> = if attrs[j].path == "on"@ {
            seq![(name, attrs[j])]
        } else {
            Seq::empty()
        };
        assert(fn_on_pairs(name, attrs.take(j)) + (one + fn_on_pairs(name, attrs.skip(j + 1)))
            =~= fn_on_pairs(name, attrs.take(j)) + one + fn_on_pairs(name, attrs.skip(j + 1)));
    }
}

proof fn lemma_fn_pairs_prepend(name: Seq<char>, attrs: Seq<AttrView>)
    requires
        attrs.len() > 0,
    ensures
        fn_on_pairs(name, attrs) == (if attrs[0].path == "on"@ {
            seq![(name, attrs[0])]
        } else {
            Seq::empty()
        }) + fn_on_pairs(name, attrs.skip(1)),
    decreases attrs.len(),
{
    let one: Seq<(Seq<char>, AttrView)> = if attrs[0].path == "on"@ {
        seq![(name, attrs[0])]
    } else {
        Seq::empty()
    };
    if attrs.len() == 1 {
        assert(attrs.drop_last() =~= Seq::<AttrView>::empty());
        assert(attrs.skip(1) =~= Seq::<AttrView>::empty());
        assert(Seq::<(Seq<char>, AttrView)>::empty() + one =~= one);
        assert(one + Seq::<(Seq<char>, AttrView)>::empty() =~= one);
    } else {
        lemma_fn_pairs_prepend(name, attrs.drop_last());
        assert(attrs.drop_last().skip(1) =~= attrs.skip(1).drop_last());
        assert(attrs.skip(1).last() == attrs.last());
        assert(attrs.drop_last()[0] == attrs[0]);
        let last: Seq<(Seq<char>, AttrView)> = if attrs.last().path == "on"@ {
            seq![(name, attrs.last())]
        } else {
            Seq::empty()
        };
        assert(one + fn_on_pairs(name, attrs.skip(1).drop_last()) + last =~= one + (fn_on_pairs(
            name,
            attrs.skip(1).drop_last(),
        ) + last));
    }
}

// ── Generation ──────────────────────────────────────────────────────────────

/// `convert_case::Casing::to_case` with `Case::Pascal`. Its word splitting
/// and capitalisation depend on the text alone; the contract names the
/// result `pascal_cased` and states nothing more of it.
#[verifier::external_body]
fn to_pascal(s: &str) -> (r: String)
    ensures
        r@ == pascal_cased(s@),
{
    s.to_case(Case::Pascal)
}

fn on_path(a: &AttrModel) -> (r: Result<(String, String), String>)
    requires
        token_count_ok(a@),
    ensures
        match r {
            Ok((c, v)) => spec_on_path(a@) == Ok::<(Seq<char>, Seq<char>), Seq<char>>((c@, v@)),
            Err(e) => spec_on_path(a@) == Err::<(Seq<char>, Seq<char>), Seq<char>>(e@),
        },
{
    let t = match &a.list_tokens {
        None => return Err("expected attribute arguments in parentheses: #[on(...)]".to_owned()),
        Some(t) => t,
    };
    let (last, k) = match parse_path(t, 0) {
        Ok(p) => p,
        Err(e) => return Err(e),
    };
    if k < t.len() {
        return Err("unexpected token".to_owned());
    }
    let j: usize = if path_sep_at(t, 0) {
        2
    } else {
        0
    };
    let first = match ident_at(t, j) {
        Some(s) => s,
        None => return Err("unexpected token".to_owned()),
    };
    Ok((first, last))
}

fn find_command_index(cs: &Vec<CommandModel>, name: &str) -> (r: Option<usize>)
    ensures
        match r {
            Some(i) => i < cs@.len() && find_command(commands_view(cs@), name@) == Some(cs@[i as int]@),
            None => find_command(commands_view(cs@), name@) is None,
        },
{
    let ghost cv = commands_view(cs@);
    let mut i: usize = 0;
    assert(cv.skip(0) =~= cv);
    while i < cs.len()
        invariant
            i <= cs@.len(),
            cv == commands_view(cs@),
            find_command(cv, name@) == find_command(cv.skip(i as int), name@),
        decreases cs@.len() - i,
    {
        assert(cv.skip(i as int)[0] == cs@[i as int]@);
        if crate::text::same_text(cs[i].name.as_str(), name) {
            return Some(i);
        }
        assert(cv.skip(i as int).skip(1) =~= cv.skip(i + 1));
        i = i + 1;
    }
    None
}

fn find_variant_index(vs: &Vec<VariantModel>, name: &str) -> (r: Option<usize>)
    ensures
        match r {
            Some(i) => i < vs@.len() && find_variant(variants_view(vs@), name@) == Some(vs@[i as int]@),
            None => find_variant(variants_view(vs@), name@) is None,
        },
{
    let ghost vv = variants_view(vs@);
    let mut i: usize = 0;
    assert(vv.skip(0) =~= vv);
    while i < vs.len()
        invariant
            i <= vs@.len(),
            vv == variants_view(vs@),
            find_variant(vv, name@) == find_variant(vv.skip(i as int), name@),
        decreases vs@.len() - i,
    {
        assert(vv.skip(i as int)[0] == vs@[i as int]@);
        if crate::text::same_text(vs[i].name.as_str(), name) {
            return Some(i);
        }
        assert(vv.skip(i as int).skip(1) =~= vv.skip(i + 1));
        i = i + 1;
    }
    None
}

fn push_fields(v: &mut Vec<char>, fs: &Vec<(String, String)>, decls: bool)
    ensures
        final(v)@ == old(v)@ + (if decls {
            field_decls(pairs_view(fs@))
        } else {
            field_names(pairs_view(fs@))
        }),
{
    let ghost pv = pairs_view(fs@);
    let mut i: usize = 0;
    while i < fs.len()
        invariant
            i <= fs@.len(),
            pv == pairs_view(fs@),
            v@ == old(v)@ + (if decls {
                field_decls(pv.take(i as int))
            } else {
                field_names(pv.take(i as int))
            }),
        decreases fs@.len() - i,
    {
        assert(pv.take(i + 1).drop_last() =~= pv.take(i as int));
        assert(pv.take(i + 1).last() == (fs@[i as int].0@, fs@[i as int].1@));
        if i > 0 {
            push_str(v, ", ");
        } else {
            assert(pv.take(1)[0] == pv.take(1).last());
        }
        if decls {
            push_str(v, "pub ");
        }
        push_str(v, fs[i].0.as_str());
        if decls {
            push_str(v, ": ");
            push_str(v, fs[i].1.as_str());
        }
        i = i + 1;
        assert(v@ =~= old(v)@ + (if decls {
            field_decls(pv.take(i as int))
        } else {
            field_names(pv.take(i as int))
        }));
    }
    assert(pv.take(fs@.len() as int) =~= pv);
}

fn push_positional(v: &mut Vec<char>, n: usize)
    ensures
        final(v)@ == old(v)@ + positional(n as nat),
{
    let mut i: usize = 0;
    while i < n
        invariant
            i <= n,
            v@ == old(v)@ + positional(i as nat),
        decreases n - i,
    {
        if i > 0 {
            push_str(v, ", ");
            push_str(v, "field");
        } else {
            push_str(v, "field0");
        }
        if i > 0 {
            let mut d = decimal_chars_u64(i as u64);
            v.append(&mut d);
        }
        i = i + 1;
        assert(v@ =~= old(v)@ + positional(i as nat));
    }
}

fn struct_def_text(var: &VariantModel) -> (r: Vec<char>)
    ensures
        r@ == struct_def(var@),
{
    let mut v: Vec<char> = Vec::new();
    match &var.fields {
        VariantFields::Named(fs) => {
            push_str(&mut v, "pub struct ");
            push_str(&mut v, var.name.as_str());
            push_str(&mut v, " { ");
            push_fields(&mut v, fs, true);
            push_str(&mut v, " }\n");
        },
        _ => {},
    }
    assert(v@ =~= struct_def(var@));
    v
}

fn arm(cmd: &str, var: &VariantModel, handler: &str) -> (r: String)
    ensures
        r@ == arm_text(cmd@, var@, handler@),
{
    let mut v: Vec<char> = Vec::new();
    push_str(&mut v, cmd);
    push_str(&mut v, "::");
    push_str(&mut v, var.name.as_str());
    match &var.fields {
        VariantFields::Unit => {
            push_str(&mut v, " => Self::");
            push_str(&mut v, handler);
            push_str(&mut v, "(state, config)");
        },
        VariantFields::Unnamed(n) => {
            push_str(&mut v, "(");
            push_positional(&mut v, *n);
            push_str(&mut v, ") => Self::");
            push_str(&mut v, handler);
            push_str(&mut v, "(state, config, ");
            push_positional(&mut v, *n);
            push_str(&mut v, ")");
        },
        VariantFields::Named(fs) => {
            push_str(&mut v, " { ");
            push_fields(&mut v, fs, false);
            push_str(&mut v, " } => { Self::");
            push_str(&mut v, handler);
            push_str(&mut v, "(state, config, ");
            let p = to_pascal(var.name.as_str());
            push_str(&mut v, p.as_str());
            push_str(&mut v, " { ");
            push_fields(&mut v, fs, false);
            push_str(&mut v, " }) }");
        },
    }
    assert(v@ =~= arm_text(cmd@, var@, handler@));
    string_from_chars(&v)
}

fn not_found_text(cmd: &String, variant: &String) -> (r: String)
    ensures
        r@ == not_found(cmd@, variant@),
{
    let mut v: Vec<char> = Vec::new();
    push_str(&mut v, "command not ");
    push_str(&mut v, cmd.as_str());
    push_str(&mut v, "::");
    push_str(&mut v, variant.as_str());
    push_str(&mut v, " found");
    string_from_chars(&v)
}

/// One `on` attribute: its struct definition and arm, or the error; `None`
/// when the expansion stops there.
fn on_attr(cs: &Vec<CommandModel>, handler: &str, a: &AttrModel) -> (r: Option<Result<(Vec<char>, String), String>>)
    requires
        token_count_ok(a@),
    ensures
        match r {
            Some(Ok((d, arm))) => on_step(commands_view(cs@), handler@, a@) == OnStep::Arm(d@, arm@),
            Some(Err(e)) => on_step(commands_view(cs@), handler@, a@) == OnStep::Fail(e@),
            None => on_step(commands_view(cs@), handler@, a@) == OnStep::Stop,
        },
{
    let (cmd, variant) = match on_path(a) {
        Ok(p) => p,
        Err(e) => return Some(Err(e)),
    };
    let ci = match find_command_index(cs, cmd.as_str()) {
        Some(i) => i,
        None => return Some(Err(not_found_text(&cmd, &variant))),
    };
    let vs = match &cs[ci].variants {
        Some(vs) => vs,
        None => return None,
    };
    let vi = match find_variant_index(vs, variant.as_str()) {
        Some(i) => i,
        None => return Some(Err(not_found_text(&cmd, &variant))),
    };
    let var = &vs[vi];
    let d = struct_def_text(var);
    let arm_s = arm(cmd.as_str(), var, handler);
    Some(Ok((d, arm_s)))
}

pub open spec fn item_attrs(it: ImplItemView) -> Seq<AttrView> {
    match it {
        ImplItemView::Fn { attrs, .. } => attrs,
        ImplItemView::Other(_) => Seq::empty(),
    }
}

/// Every attribute's token list is short enough to index.
pub open spec fn on_attrs_bounded(items: Seq<ImplItemView>) -> bool {
    forall|i: int, j: int|
        0 <= i < items.len() && 0 <= j < item_attrs(items[i]).len() ==> token_count_ok(
            #[trigger] item_attrs(items[i])[j],
        )
}

fn push_arms(v: &mut Vec<char>, arms: &Vec<String>)
    ensures
        final(v)@ == old(v)@ + joined_arms(strings_view(arms@)),
{
    let ghost av = strings_view(arms@);
    let mut i: usize = 0;
    while i < arms.len()
        invariant
            i <= arms@.len(),
            av == strings_view(arms@),
            v@ == old(v)@ + joined_arms(av.take(i as int)),
        decreases arms@.len() - i,
    {
        assert(av.take(i + 1).drop_last() =~= av.take(i as int));
        assert(av.take(i + 1).last() == arms@[i as int]@);
        if i > 0 {
            push_str(v, ",\n");
        } else {
            assert(av.take(1)[0] == av.take(1).last());
        }
        push_str(v, arms[i].as_str());
        i = i + 1;
        assert(v@ =~= old(v)@ + joined_arms(av.take(i as int)));
    }
    assert(av.take(arms@.len() as int) =~= av);
}

/// The walk over the `on` attributes: the struct definitions and arms, the
/// first failure, or `None` where the expansion stops.
fn walk_exec(imp: &ImplModel, commands: &Vec<CommandModel>) -> (r: Option<Result<(Vec<char>, Vec<String>), String>>)
    requires
        on_attrs_bounded(imp@.items),
    ensures
        match r {
            Some(Ok((defs, arms))) => walk(commands_view(commands@), on_pairs(imp@.items)) == (Walk::Done {
                defs: defs@,
                arms: strings_view(arms@),
            }),
            Some(Err(e)) => walk(commands_view(commands@), on_pairs(imp@.items)) == Walk::Failed(e@),
            None => walk(commands_view(commands@), on_pairs(imp@.items)) is Stopped,
        },
{
    let ghost cv = commands_view(commands@);
    let ghost iv = imp@.items;
    let mut defs: Vec<char> = Vec::new();
    let mut arms: Vec<String> = Vec::new();
    let ghost mut pairs: Seq<(Seq<char>, AttrView)> = Seq::empty();
    let mut i: usize = 0;
    assert(iv.take(0) =~= Seq::<ImplItemView>::empty());
    assert(strings_view(arms@) =~= Seq::<Seq<char>>::empty());
    assert(defs@ =~= Seq::<char>::empty());
    while i < imp.items.len()
        invariant
            i <= imp.items@.len(),
            cv == commands_view(commands@),
            iv == imp@.items,
            iv == impl_items_view(imp.items@),
            on_attrs_bounded(iv),
            pairs == on_pairs(iv.take(i as int)),
            walk(cv, pairs) == (Walk::Done { defs: defs@, arms: strings_view(arms@) }),
        decreases imp.items@.len() - i,
    {
        assert(iv[i as int] == imp.items@[i as int]@);
        assert(iv.take(i + 1).drop_last() =~= iv.take(i as int));
        assert(iv.take(i + 1).last() == iv[i as int]);
        match &imp.items[i] {
            ImplItemModel::Other(_) => {
                assert(on_pairs(iv.take(i + 1)) =~= pairs);
            },
            ImplItemModel::Fn { name, attrs, rest } => {
                let ghost avs = attrs_view(attrs@);
                let ghost base = pairs;
                let mut j: usize = 0;
                assert(avs.take(0) =~= Seq::<AttrView>::empty());
                assert(base + fn_on_pairs(name@, avs.take(0)) =~= base);
                while j < attrs.len()
                    invariant
                        j <= attrs@.len(),
                        cv == commands_view(commands@),
                        avs == attrs_view(attrs@),
                        iv == imp@.items,
                        iv[i as int] == (ImplItemView::Fn { name: name@, attrs: avs, rest: rest@ }),
                        i < iv.len(),
                        on_attrs_bounded(iv),
                        base == on_pairs(iv.take(i as int)),
                        pairs == base + fn_on_pairs(name@, avs.take(j as int)),
                        walk(cv, pairs) == (Walk::Done { defs: defs@, arms: strings_view(arms@) }),
                        iv.take(i + 1).drop_last() == iv.take(i as int),
                        iv.take(i + 1).last() == iv[i as int],
                    decreases attrs@.len() - j,
                {
                    let a = &attrs[j];
                    assert(avs[j as int] == a@);
                    assert(avs.take(j + 1).drop_last() =~= avs.take(j as int));
                    assert(avs.take(j + 1).last() == a@);
                    if crate::text::same_text(a.path.as_str(), "on") {
                        let ghost p = (name@, a@);
                        assert(fn_on_pairs(name@, avs.take(j + 1)) =~= fn_on_pairs(name@, avs.take(j as int)).push(p));
                        assert(base + fn_on_pairs(name@, avs.take(j + 1)) =~= pairs.push(p));
                        proof {
                            lemma_walk_push(cv, pairs, p);
                        }
                        assert(item_attrs(iv[i as int]) == avs);
                        assert(token_count_ok(item_attrs(iv[i as int])[j as int]));
                        let step = on_attr(commands, name.as_str(), a);
                        match step {
                            Some(Ok((mut d, arm_s))) => {
                                let ghost arms_before = strings_view(arms@);
                                defs.append(&mut d);
                                arms.push(arm_s);
                                assert(strings_view(arms@) =~= arms_before.push(arm_s@));
                            },
                            _ => {
                                proof {
                                    lemma_rest_of_walk(cv, iv, i as int, name@, avs, j as int, rest@);
                                    assert(on_pairs(iv) =~= pairs.push(p) + rest_pairs(iv, i as int, name@, avs, j as int));
                                    lemma_walk_settled(cv, pairs.push(p), rest_pairs(iv, i as int, name@, avs, j as int));
                                }
                                return match step {
                                    Some(Err(e)) => Some(Err(e)),
                                    _ => None,
                                };
                            },
                        }
                        proof {
                            pairs = pairs.push(p);
                        }
                    } else {
                        assert(fn_on_pairs(name@, avs.take(j + 1)) =~= fn_on_pairs(name@, avs.take(j as int)));
                    }
                    j = j + 1;
                }
                assert(avs.take(attrs@.len() as int) =~= avs);
                assert(on_pairs(iv.take(i + 1)) =~= pairs);
            },
        }
        i = i + 1;
    }
    assert(iv.take(imp.items@.len() as int) =~= iv);
    Some(Ok((defs, arms)))
}

fn push_items(v: &mut Vec<char>, items: &Vec<ImplItemModel>)
    ensures
        final(v)@ == old(v)@ + items_text(impl_items_view(items@)),
{
    let ghost iv = impl_items_view(items@);
    let mut i: usize = 0;
    while i < items.len()
        invariant
            i <= items@.len(),
            iv == impl_items_view(items@),
            v@ == old(v)@ + items_text(iv.take(i as int)),
        decreases items@.len() - i,
    {
        assert(iv[i as int] == items@[i as int]@);
        assert(iv.take(i + 1).drop_last() =~= iv.take(i as int));
        assert(iv.take(i + 1).last() == iv[i as int]);
        match &items[i] {
            ImplItemModel::Other(t) => {
                push_str(v, t.as_str());
                push_str(v, "\n");
            },
            ImplItemModel::Fn { attrs, rest, .. } => {
                let ghost avs = attrs_view(attrs@);
                let ghost start = v@;
                let mut j: usize = 0;
                assert(avs.take(0) =~= Seq::<AttrView>::empty());
                while j < attrs.len()
                    invariant
                        j <= attrs@.len(),
                        avs == attrs_view(attrs@),
                        v@ == start + kept_attrs(avs.take(j as int)),
                    decreases attrs@.len() - j,
                {
                    assert(avs[j as int] == attrs@[j as int]@);
                    assert(avs.take(j + 1).drop_last() =~= avs.take(j as int));
                    assert(avs.take(j + 1).last() == attrs@[j as int]@);
                    if !crate::text::same_text(attrs[j].path.as_str(), "on") {
                        push_str(v, attrs[j].text.as_str());
                        push_str(v, "\n");
                    }
                    j = j + 1;
                    assert(v@ =~= start + kept_attrs(avs.take(j as int)));
                }
                assert(avs.take(attrs@.len() as int) =~= avs);
                push_str(v, rest.as_str());
                push_str(v, "\n");
            },
        }
        i = i + 1;
        assert(v@ =~= old(v)@ + items_text(iv.take(i as int)));
    }
    assert(iv.take(items@.len() as int) =~= iv);
}

/// Whether the expansion stops on the impl: an `on` attribute, reached
/// before any error, names a command that is not an enum.
pub fn middleware_stops(imp: &ImplModel, commands: &Vec<CommandModel>) -> (b: bool)
    requires
        on_attrs_bounded(imp@.items),
    ensures
        b == spec_middleware_stops(imp@, commands_view(commands@)),
{
    walk_exec(imp, commands).is_none()
}

/// The middleware attribute: each method's `#[on(Command::Variant)]`
/// attributes, in order, give a match arm that calls the method with the
/// state, the configuration and the variant's fields (positional fields one
/// by one, named fields in the variant's struct, which is defined alongside);
/// the methods keep their other attributes, and the impl gains
/// `callback_match`, which dispatches a command to these arms. The command
/// types are looked up among `commands`, the first of each name. An `on`
/// path that does not parse is the error, and so is a command or variant
/// that is not found ("command not Command::Variant found").
pub fn middleware(imp: &ImplModel, commands: &Vec<CommandModel>) -> (r: Result<String, MacroError>)
    requires
        on_attrs_bounded(imp@.items),
        !spec_middleware_stops(imp@, commands_view(commands@)),
    ensures
        result_view(r) == spec_middleware(imp@, commands_view(commands@)),
{
    let (mut defs, arms) = match walk_exec(imp, commands) {
        Some(Ok(w)) => w,
        Some(Err(e)) => return Err(MacroError { message: e }),
        None => return Err(MacroError { message: String::new() }),
    };
    let mut v: Vec<char> = Vec::new();
    v.append(&mut defs);
    push_str(&mut v, "impl ");
    push_str(&mut v, imp.self_ty.as_str());
    push_str(&mut v, " {\n");
    push_items(&mut v, &imp.items);
    push_str(
        &mut v,
        "    fn callback_match(&mut self, cmd: __DeviceCommand, state: &mut ::Oreos::hal::DeviceState<__DeviceState>, config: &::Oreos::hal::DeviceConfig<__DeviceConfig>) {\n",
    );
    push_str(&mut v, "        ::Oreos::defmt::debug!(\"middleware: dispatching command\");\n        match cmd {\n");
    push_arms(&mut v, &arms);
    push_str(&mut v, "\n        }\n    }\n}\n");
    Ok(string_from_chars(&v))
}

/// The `on` pairs after attribute `j` of item `i`.
pub open spec fn rest_pairs(items: Seq<ImplItemView>, i: int, name: Seq<char>, attrs: Seq<AttrView>, j: int) -> Seq<(Seq<char>, AttrView)> {
    fn_on_pairs(name, attrs.skip(j + 1)) + on_pairs(items.skip(i + 1))
}

proof fn lemma_rest_of_walk(
    cs: Seq<CommandView>,
    items: Seq<ImplItemView>,
    i: int,
    name: Seq<char>,
    attrs: Seq<AttrView>,
    j: int,
    rest: Seq<char>,
)
    requires
        0 <= i < items.len(),
        0 <= j < attrs.len(),
        items[i] == (ImplItemView::Fn { name, attrs, rest }),
        attrs[j].path == "on"@,
    ensures
        on_pairs(items) == on_pairs(items.take(i)) + fn_on_pairs(name, attrs.take(j)).push((name, attrs[j]))
            + rest_pairs(items, i, name, attrs, j),
{
    lemma_on_pairs_split(items, i);
    lemma_on_pairs_prepend(items.skip(i));
    assert(items.skip(i)[0] == items[i]);
    assert(items.skip(i).skip(1) =~= items.skip(i + 1));
    lemma_fn_pairs_split(name, attrs, j);
    lemma_fn_pairs_prepend(name, attrs.skip(j));
    assert(attrs.skip(j)[0] == attrs[j]);
    assert(attrs.skip(j).skip(1) =~= attrs.skip(j + 1));
    assert(on_pairs(items) =~= on_pairs(items.take(i)) + fn_on_pairs(name, attrs.take(j)).push((name, attrs[j]))
        + rest_pairs(items, i, name, attrs, j));
}

} // verus!
