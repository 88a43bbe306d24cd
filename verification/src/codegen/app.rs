//! The expansion of `#[app(hal_crate = ...)]` on the application module:
//! the module with its functions made public, one task per `#[loop_]`
//! function, and the `main` that initialises the hardware and the devices and
//! spawns the tasks.

use vstd::prelude::*;
use crate::codegen::model::{toks_view, Tok, TokView};
use crate::codegen::routes::is_punct;
use crate::text::{decimal, decimal_chars, push_str, same_text, string_from_chars};

verus! {

// ── Arguments ───────────────────────────────────────────────────────────────

/// `hal_crate = <ident>`: any identifier, `=`, then the crate's identifier.
pub open spec fn spec_app_args(t: Seq<TokView>) -> Result<Seq<char>, Seq<char>> {
    if t.len() < 1 {
        Err("unexpected end of input, expected identifier"@)
    } else if !(t[0] is Ident) {
        Err("expected identifier"@)
    } else if t.len() < 2 {
        Err("unexpected end of input, expected `=`"@)
    } else if !is_punct(t[1], '=') {
        Err("expected `=`"@)
    } else if t.len() < 3 {
        Err("unexpected end of input, expected identifier"@)
    } else if !(t[2] is Ident) {
        Err("expected identifier"@)
    } else if t.len() > 3 {
        Err("unexpected token"@)
    } else {
        Ok(t[2]->Ident_0)
    }
}

/// Parses the attribute's arguments into the name of the HAL crate.
pub fn parse_app_args(t: &Vec<Tok>) -> (r: Result<String, String>)
    ensures
        match r {
            Ok(s) => spec_app_args(toks_view(t@)) == Ok::<Seq<char>, Seq<char>>(s@),
            Err(e) => spec_app_args(toks_view(t@)) == Err::<Seq<char>, Seq<char>>(e@),
        },
{
    if t.len() < 1 {
        return Err("unexpected end of input, expected identifier".to_owned());
    }
    match &t[0] {
        Tok::Ident(_) => {},
        _ => return Err("expected identifier".to_owned()),
    }
    if t.len() < 2 {
        return Err("unexpected end of input, expected `=`".to_owned());
    }
    let eq = match &t[1] {
        Tok::Punct(c, _) => *c == '=',
        _ => false,
    };
    if !eq {
        return Err("expected `=`".to_owned());
    }
    if t.len() < 3 {
        return Err("unexpected end of input, expected identifier".to_owned());
    }
    let name = match &t[2] {
        Tok::Ident(s) => s.clone(),
        _ => return Err("expected identifier".to_owned()),
    };
    if t.len() > 3 {
        return Err("unexpected token".to_owned());
    }
    Ok(name)
}

// ── Integers ────────────────────────────────────────────────────────────────

pub open spec fn is_digit(c: char) -> bool {
    '0' <= c && c <= '9'
}

pub open spec fn digits_value(s: Seq<char>) -> nat
    decreases s.len(),
{
    if s.len() == 0 {
        0
    } else {
        digits_value(s.drop_last()) * 10 + ((s.last() as u32) - 48) as nat
    }
}

pub open spec fn all_digits(s: Seq<char>) -> bool {
    forall|i: int| 0 <= i < s.len() ==> is_digit(#[trigger] s[i])
}

/// The value of the decimal digits as an integer of at most `max`, with the
/// messages `str::parse` gives.
pub open spec fn spec_parse_decimal(s: Seq<char>, max: nat) -> Result<nat, Seq<char>> {
    if s.len() == 0 {
        Err("cannot parse integer from empty string"@)
    } else if !all_digits(s) {
        Err("invalid digit found in string"@)
    } else if digits_value(s) > max {
        Err("number too large to fit in target type"@)
    } else {
        Ok(digits_value(s))
    }
}

fn parse_decimal(s: &String, max: u64) -> (r: Result<u64, String>)
    requires
        max >= 9,
    ensures
        match r {
            Ok(v) => spec_parse_decimal(s@, max as nat) == Ok::<nat, Seq<char>>(v as nat),
            Err(e) => spec_parse_decimal(s@, max as nat) == Err::<nat, Seq<char>>(e@),
        },
{
    let cs = crate::text::chars_of(s.as_str());
    if cs.len() == 0 {
        return Err("cannot parse integer from empty string".to_owned());
    }
    let mut i: usize = 0;
    while i < cs.len()
        invariant
            cs@ == s@,
            i <= cs@.len(),
            forall|j: int| 0 <= j < i ==> is_digit(#[trigger] cs@[j]),
        decreases cs@.len() - i,
    {
        if !('0' <= cs[i] && cs[i] <= '9') {
            return Err("invalid digit found in string".to_owned());
        }
        i = i + 1;
    }
    let mut v: u64 = 0;
    let mut i: usize = 0;
    while i < cs.len()
        invariant
            cs@ == s@,
            all_digits(cs@),
            i <= cs@.len(),
            v as nat == digits_value(cs@.take(i as int)),
            v <= max,
            max >= 9,
        decreases cs@.len() - i,
    {
        assert(cs@.take(i + 1).drop_last() =~= cs@.take(i as int));
        assert(is_digit(cs@[i as int]));
        let d: u64 = ((cs[i] as u32) - 48) as u64;
        if v > (max - d) / 10 {
            proof {
                lemma_digits_grow(cs@, i as int);
            }
            return Err("number too large to fit in target type".to_owned());
        }
        assert(v * 10 + d <= max) by (nonlinear_arith)
            requires
                v <= (max - d) / 10,
                d <= max,
        ;
        v = v * 10 + d;
        i = i + 1;
    }
    assert(cs@.take(cs@.len() as int) =~= cs@);
    Ok(v)
}

proof fn lemma_digits_grow(s: Seq<char>, i: int)
    requires
        all_digits(s),
        0 <= i < s.len(),
    ensures
        digits_value(s) >= digits_value(s.take(i + 1)),
    decreases s.len(),
{
    if i + 1 < s.len() {
        assert(s.drop_last().take(i + 1) =~= s.take(i + 1));
        assert forall|j: int| 0 <= j < s.drop_last().len() implies is_digit(#[trigger] s.drop_last()[j]) by {
            assert(s.drop_last()[j] == s[j]);
        }
        lemma_digits_grow(s.drop_last(), i);
        assert(digits_value(s) >= digits_value(s.drop_last()) * 10) by (nonlinear_arith)
            requires
                digits_value(s) == digits_value(s.drop_last()) * 10 + ((s.last() as u32) - 48) as nat,
        ;
        assert(digits_value(s.drop_last()) * 10 >= digits_value(s.drop_last())) by (nonlinear_arith);
    } else {
        assert(s.take(i + 1) =~= s);
    }
}

// ── The module ──────────────────────────────────────────────────────────────

/// One `key = value` or other entry of an attribute's argument list.
pub enum MetaArg {
    /// `key = value`: the key, the value as token text, and the value's
    /// decimal digits when it is an integer literal.
    NameValue { key: String, value: String, int_digits: Option<String> },
    /// Anything else, as token text.
    Other(String),
}

/// An attribute of a function: its path, its text, and its arguments read as
/// a comma-separated list (or the message of why they could not be).
pub struct FnAttr {
    pub path: String,
    pub text: String,
    pub args: Result<Vec<MetaArg>, String>,
}

/// An identifier pattern: its attributes and `ref` as text, the identifier,
/// and its `@ subpattern` as text.
pub struct PatIdentModel {
    pub prefix: String,
    pub ident: String,
    pub subpat: String,
}

/// A parameter of a function.
pub enum FnArgModel {
    /// `self` in any form, as text.
    Receiver(String),
    /// `pattern: type`: the pattern as text (and its parts when it is an
    /// identifier), the type as text, and whether the type is `Context` or a
    /// reference to it.
    Typed { pat: String, pat_ident: Option<PatIdentModel>, ty: String, ty_is_context: bool },
}

/// A statement of a function's body: its text, and for a `let` marked
/// `#[once]` its text without that attribute.
pub struct StmtModel {
    pub text: String,
    pub once: Option<String>,
}

/// A function of the application module.
pub struct FnModel {
    pub attrs: Vec<FnAttr>,
    /// `const`, `async`, `unsafe`, the ABI and `fn`, as text.
    pub sig_prefix: String,
    pub name: String,
    pub generics: String,
    pub args: Vec<FnArgModel>,
    /// The return type and where clause, as text.
    pub sig_suffix: String,
    pub stmts: Vec<StmtModel>,
}

/// An item of the application module.
pub enum AppItem {
    Fn(FnModel),
    Other(String),
}

/// The module the attribute is applied to; `items` is `None` for `mod m;`.
pub struct ModuleModel {
    pub attrs: String,
    pub vis: String,
    pub name: String,
    pub items: Option<Vec<AppItem>>,
}

// Views.

pub enum MetaView {
    NameValue { key: Seq<char>, value: Seq<char>, int_digits: Option<Seq<char>> },
    Other(Seq<char>),
}

pub struct FnAttrView {
    pub path: Seq<char>,
    pub text: Seq<char>,
    pub args: Result<Seq<MetaView>, Seq<char>>,
}

pub enum ArgView {
    Receiver(Seq<char>),
    Typed {
        pat: Seq<char>,
        pat_ident: Option<(Seq<char>, Seq<char>, Seq<char>)>,
        ty: Seq<char>,
        ty_is_context: bool,
    },
}

pub struct StmtView {
    pub text: Seq<char>,
    pub once: Option<Seq<char>>,
}

pub struct FnView {
    pub attrs: Seq<FnAttrView>,
    pub sig_prefix: Seq<char>,
    pub name: Seq<char>,
    pub generics: Seq<char>,
    pub args: Seq<ArgView>,
    pub sig_suffix: Seq<char>,
    pub stmts: Seq<StmtView>,
}

pub enum ItemView {
    Fn(FnView),
    Other(Seq<char>),
}

pub struct ModuleView {
    pub attrs: Seq<char>,
    pub vis: Seq<char>,
    pub name: Seq<char>,
    pub items: Option<Seq<ItemView>>,
}

pub open spec fn opt_str(o: Option<String>) -> Option<Seq<char>> {
    match o {
        Some(s) => Some(s@),
        None => None,
    }
}

impl View for MetaArg {
    type V = MetaView;

    open spec fn view(&self) -> MetaView {
        match self {
            MetaArg::NameValue { key, value, int_digits } => MetaView::NameValue {
                key: key@,
                value: value@,
                int_digits: opt_str(*int_digits),
            },
            MetaArg::Other(s) => MetaView::Other(s@),
        }
    }
}

pub open spec fn metas_view(v: Seq<MetaArg>) -> Seq<MetaView> {
    v.map_values(|m: MetaArg| m@)
}

impl View for FnAttr {
    type V = FnAttrView;

    open spec fn view(&self) -> FnAttrView {
        FnAttrView {
            path: self.path@,
            text: self.text@,
            args: match self.args {
                Ok(v) => Ok(metas_view(v@)),
                Err(e) => Err(e@),
            },
        }
    }
}

impl View for FnArgModel {
    type V = ArgView;

    open spec fn view(&self) -> ArgView {
        match self {
            FnArgModel::Receiver(s) => ArgView::Receiver(s@),
            FnArgModel::Typed { pat, pat_ident, ty, ty_is_context } => ArgView::Typed {
                pat: pat@,
                pat_ident: match pat_ident {
                    Some(p) => Some((p.prefix@, p.ident@, p.subpat@)),
                    None => None,
                },
                ty: ty@,
                ty_is_context: *ty_is_context,
            },
        }
    }
}

impl View for StmtModel {
    type V = StmtView;

    open spec fn view(&self) -> StmtView {
        StmtView { text: self.text@, once: opt_str(self.once) }
    }
}

pub open spec fn fn_attrs_view(v: Seq<FnAttr>) -> Seq<FnAttrView> {
    v.map_values(|a: FnAttr| a@)
}

pub open spec fn args_view(v: Seq<FnArgModel>) -> Seq<ArgView> {
    v.map_values(|a: FnArgModel| a@)
}

pub open spec fn stmts_view(v: Seq<StmtModel>) -> Seq<StmtView> {
    v.map_values(|s: StmtModel| s@)
}

impl View for FnModel {
    type V = FnView;

    open spec fn view(&self) -> FnView {
        FnView {
            attrs: fn_attrs_view(self.attrs@),
            sig_prefix: self.sig_prefix@,
            name: self.name@,
            generics: self.generics@,
            args: args_view(self.args@),
            sig_suffix: self.sig_suffix@,
            stmts: stmts_view(self.stmts@),
        }
    }
}

impl View for AppItem {
    type V = ItemView;

    open spec fn view(&self) -> ItemView {
        match self {
            AppItem::Fn(f) => ItemView::Fn(f@),
            AppItem::Other(s) => ItemView::Other(s@),
        }
    }
}

pub open spec fn items_view(v: Seq<AppItem>) -> Seq<ItemView> {
    v.map_values(|i: AppItem| i@)
}

impl View for ModuleModel {
    type V = ModuleView;

    open spec fn view(&self) -> ModuleView {
        ModuleView {
            attrs: self.attrs@,
            vis: self.vis@,
            name: self.name@,
            items: match self.items {
                Some(v) => Some(items_view(v@)),
                None => None,
            },
        }
    }
}

// ── What the expansion reads of a function ──────────────────────────────────

pub open spec fn has_fn_attr(attrs: Seq<FnAttrView>, p: Seq<char>) -> bool {
    exists|i: int| 0 <= i < attrs.len() && attrs[i].path == p
}

/// The first attribute whose path is `p`.
pub open spec fn first_attr(attrs: Seq<FnAttrView>, p: Seq<char>) -> FnAttrView
    decreases attrs.len(),
{
    if attrs.len() == 0 {
        FnAttrView { path: Seq::empty(), text: Seq::empty(), args: Err(Seq::empty()) }
    } else if attrs[0].path == p {
        attrs[0]
    } else {
        first_attr(attrs.skip(1), p)
    }
}

/// The configuration an `#[init]`'s arguments give: each must be
/// `config = value`, and the last one counts.
pub open spec fn init_config(args: Seq<MetaView>, cfg: Option<Seq<char>>) -> Result<Option<Seq<char>>, Seq<char>>
    decreases args.len(),
{
    if args.len() == 0 {
        Ok(cfg)
    } else {
        match args[0] {
            MetaView::NameValue { key, value, .. } => if key == "config"@ {
                init_config(args.skip(1), Some(value))
            } else {
                Err("Expected key = value"@)
            },
            _ => Err("Expected key = value"@),
        }
    }
}

/// The rate a `#[loop_]`'s arguments give, starting from `rate`: `rate` and
/// `priority` must be integer literals that fit a `u64` and a `u8`; other
/// entries are ignored.
pub open spec fn loop_rate(args: Seq<MetaView>, rate: nat) -> Result<nat, Seq<char>>
    decreases args.len(),
{
    if args.len() == 0 {
        Ok(rate)
    } else {
        match args[0] {
            MetaView::NameValue { key, int_digits, .. } => if key == "rate"@ {
                match int_digits {
                    None => Err("Expected an integer"@),
                    Some(d) => match spec_parse_decimal(d, u64::MAX as nat) {
                        Err(e) => Err(e),
                        Ok(v) => loop_rate(args.skip(1), v),
                    },
                }
            } else if key == "priority"@ {
                match int_digits {
                    None => Err("Expected an integer"@),
                    Some(d) => match spec_parse_decimal(d, u8::MAX as nat) {
                        Err(e) => Err(e),
                        Ok(_) => loop_rate(args.skip(1), rate),
                    },
                }
            } else {
                loop_rate(args.skip(1), rate)
            },
            _ => loop_rate(args.skip(1), rate),
        }
    }
}

/// The attributes left on a function: without `init` when it is the init
/// function and without `loop_` when it is a loop function; each on a line.
pub open spec fn kept_fn_attrs(attrs: Seq<FnAttrView>, is_init: bool, is_loop: bool) -> Seq<char>
    decreases attrs.len(),
{
    if attrs.len() == 0 {
        Seq::empty()
    } else {
        let a = attrs.last();
        kept_fn_attrs(attrs.drop_last(), is_init, is_loop) + if (is_init && a.path == "init"@) || (
        is_loop && a.path == "loop_"@) {
            Seq::empty()
        } else {
            a.text + "\n"@
        }
    }
}

/// A parameter as written; in a loop function a `Context` parameter becomes
/// `crate::devices::ContextView<'_>`, bound mutably when bound to an
/// identifier.
pub open spec fn arg_text(a: ArgView, is_loop: bool) -> Seq<char> {
    match a {
        ArgView::Receiver(s) => s,
        ArgView::Typed { pat, pat_ident, ty, ty_is_context } => if is_loop && ty_is_context {
            (match pat_ident {
                Some((prefix, ident, subpat)) => prefix + "mut "@ + ident + subpat,
                None => pat,
            }) + ": crate::devices::ContextView<'_>"@
        } else {
            pat + ": "@ + ty
        },
    }
}

pub open spec fn args_text(args: Seq<ArgView>, is_loop: bool) -> Seq<char>
    decreases args.len(),
{
    if args.len() == 0 {
        Seq::empty()
    } else if args.len() == 1 {
        arg_text(args[0], is_loop)
    } else {
        args_text(args.drop_last(), is_loop) + ", "@ + arg_text(args.last(), is_loop)
    }
}

/// The body's statements, each on a line; a loop function's `#[once]` lets
/// are taken out.
pub open spec fn body_text(stmts: Seq<StmtView>, is_loop: bool) -> Seq<char>
    decreases stmts.len(),
{
    if stmts.len() == 0 {
        Seq::empty()
    } else {
        body_text(stmts.drop_last(), is_loop) + if is_loop && stmts.last().once is Some {
            Seq::empty()
        } else {
            "    "@ + stmts.last().text + "\n"@
        }
    }
}

/// A loop function's `#[once]` lets, without the attribute, joined by `;`.
pub open spec fn once_text(stmts: Seq<StmtView>) -> Seq<char>
    decreases stmts.len(),
{
    if stmts.len() == 0 {
        Seq::empty()
    } else {
        let rest = once_text(stmts.drop_last());
        match stmts.last().once {
            Some(t) => if rest.len() == 0 {
                t
            } else {
                rest + ";"@ + t
            },
            None => rest,
        }
    }
}

/// The function as the module keeps it: public, without its `init`/`loop_`
/// attributes, and for a loop function with its context parameter
/// rewritten and its `#[once]` lets taken out.
pub open spec fn fn_text(f: FnView, is_init: bool, is_loop: bool) -> Seq<char> {
    kept_fn_attrs(f.attrs, is_init, is_loop) + "pub "@ + f.sig_prefix + " "@ + f.name + f.generics
        + "("@ + args_text(f.args, is_loop) + ") "@ + f.sig_suffix + " {\n"@ + body_text(
        f.stmts,
        is_loop,
    ) + "}\n"@
}

/// The task of a loop function: it runs the `#[once]` lets, then calls the
/// function with a view of the context every `rate` milliseconds.
pub open spec fn task_text(f: FnView, rate: nat) -> Seq<char> {
    "#[embassy_executor::task]\nasync fn "@ + f.name
        + "_task(mut ctx: crate::devices::StoredContext) {\n"@ + once_text(f.stmts)
        + "\n    loop {\n        crate::app::"@ + f.name
        + "(ctx.view()).await;\n        ::Oreos::embassy_time::Timer::after_millis("@ + decimal(rate)
        + "u64).await;\n    }\n}\n"@
}

pub open spec fn spawn_text(f: FnView) -> Seq<char> {
    "    spawner.spawn("@ + f.name + "_task(ctx).unwrap());\n"@
}

/// What the walk over the module's items has gathered: the items' text, the
/// init function and its configuration, the spawn calls and the tasks.
pub struct AppState {
    pub items: Seq<char>,
    pub init: Option<Seq<char>>,
    pub config: Option<Seq<char>>,
    pub spawns: Seq<char>,
    pub tasks: Seq<char>,
}

pub open spec fn app_start() -> AppState {
    AppState {
        items: Seq::empty(),
        init: None,
        config: None,
        spawns: Seq::empty(),
        tasks: Seq::empty(),
    }
}

/// One item of the walk.
pub open spec fn app_step(st: AppState, it: ItemView) -> Result<AppState, Seq<char>> {
    match it {
        ItemView::Other(t) => Ok(AppState { items: st.items + t + "\n"@, ..st }),
        ItemView::Fn(f) => {
            let is_init = has_fn_attr(f.attrs, "init"@);
            let is_loop = has_fn_attr(f.attrs, "loop_"@);
            let after_init: Result<AppState, Seq<char>> = if is_init {
                match first_attr(f.attrs, "init"@).args {
                    Err(e) => Err(e),
                    Ok(args) => if st.init is Some {
                        Err("only one #[init] is allowed"@)
                    } else {
                        match init_config(args, st.config) {
                            Err(e) => Err(e),
                            Ok(cfg) => Ok(AppState { init: Some(f.name), config: cfg, ..st }),
                        }
                    },
                }
            } else {
                Ok(st)
            };
            match after_init {
                Err(e) => Err(e),
                Ok(s1) => if is_loop {
                    match first_attr(f.attrs, "loop_"@).args {
                        Err(e) => Err(e),
                        Ok(args) => match loop_rate(args, 1000) {
                            Err(e) => Err(e),
                            Ok(rate) => Ok(
                                AppState {
                                    items: s1.items + fn_text(f, is_init, true),
                                    spawns: s1.spawns + spawn_text(f),
                                    tasks: s1.tasks + task_text(f, rate),
                                    ..s1
                                },
                            ),
                        },
                    }
                } else {
                    Ok(AppState { items: s1.items + fn_text(f, is_init, false), ..s1 })
                },
            }
        },
    }
}

/// The walk over the items, in order; the first error stops it.
pub open spec fn app_walk(items: Seq<ItemView>) -> Result<AppState, Seq<char>>
    decreases items.len(),
{
    if items.len() == 0 {
        Ok(app_start())
    } else {
        match app_walk(items.drop_last()) {
            Err(e) => Err(e),
            Ok(st) => app_step(st, items.last()),
        }
    }
}

/// The module, the `main` and the tasks.
pub open spec fn app_expansion(m: ModuleView, hal: Seq<char>, st: AppState) -> Seq<char> {
    let body = match m.items {
        Some(_) => " {\nuse super::*;\nuse crate::devices::*;\n"@ + st.items + "}\n"@,
        None => ";\n"@,
    };
    let init_call = match st.init {
        Some(n) => n,
        None => "::core::compile_error! { \"Missing #[init] function\" }"@,
    };
    let config = match st.config {
        Some(c) => c,
        None => "Default::default()"@,
    };
    m.attrs + m.vis + " mod "@ + m.name + body
        + "#[embassy_executor::main]\nasync fn main(spawner: embassy_executor::Spawner) {\n    use crate::app::*;\n    let p = "@
        + hal + "::init("@ + config + ");\n    let dev: devices::Devices = "@ + init_call
        + "(p, spawner).await;\n    let ctx = devices::__init_devices__(spawner, dev);\n"@
        + st.spawns + "}\n"@ + st.tasks
}

/// What `#[app(hal_crate = ...)]` gives for the module: the first error met
/// while walking its functions, or the expansion.
pub open spec fn spec_app(m: ModuleView, hal: Seq<char>) -> Result<Seq<char>, Seq<char>> {
    match m.items {
        None => Ok(app_expansion(m, hal, app_start())),
        Some(items) => match app_walk(items) {
            Err(e) => Err(e),
            Ok(st) => Ok(app_expansion(m, hal, st)),
        },
    }
}

// ── Generation ──────────────────────────────────────────────────────────────

fn attr_index(attrs: &Vec<FnAttr>, p: &str) -> (r: Option<usize>)
    ensures
        match r {
            Some(i) => i < attrs@.len() && has_fn_attr(fn_attrs_view(attrs@), p@) && first_attr(
                fn_attrs_view(attrs@),
                p@,
            ) == attrs@[i as int]@,
            None => !has_fn_attr(fn_attrs_view(attrs@), p@),
        },
{
    let ghost av = fn_attrs_view(attrs@);
    let mut i: usize = 0;
    assert(av.skip(0) =~= av);
    while i < attrs.len()
        invariant
            i <= attrs@.len(),
            av == fn_attrs_view(attrs@),
            forall|j: int| 0 <= j < i ==> av[j].path != p@,
            first_attr(av, p@) == first_attr(av.skip(i as int), p@),
        decreases attrs@.len() - i,
    {
        assert(av[i as int] == attrs@[i as int]@);
        assert(av.skip(i as int)[0] == av[i as int]);
        if same_text(attrs[i].path.as_str(), p) {
            return Some(i);
        }
        assert(av.skip(i as int).skip(1) =~= av.skip(i + 1));
        i = i + 1;
    }
    None
}

fn push_kept_attrs(v: &mut Vec<char>, attrs: &Vec<FnAttr>, is_init: bool, is_loop: bool)
    ensures
        final(v)@ == old(v)@ + kept_fn_attrs(fn_attrs_view(attrs@), is_init, is_loop),
{
    let ghost av = fn_attrs_view(attrs@);
    let mut i: usize = 0;
    assert(av.skip(0) =~= av);
    while i < attrs.len()
        invariant
            i <= attrs@.len(),
            av == fn_attrs_view(attrs@),
            v@ == old(v)@ + kept_fn_attrs(av.take(i as int), is_init, is_loop),
        decreases attrs@.len() - i,
    {
        assert(av.take(i + 1).drop_last() =~= av.take(i as int));
        assert(av.take(i + 1).last() == attrs@[i as int]@);
        let a = &attrs[i];
        let drop = (is_init && same_text(a.path.as_str(), "init")) || (is_loop && same_text(
            a.path.as_str(),
            "loop_",
        ));
        if !drop {
            push_str(v, a.text.as_str());
            push_str(v, "\n");
        }
        i = i + 1;
        assert(v@ =~= old(v)@ + kept_fn_attrs(av.take(i as int), is_init, is_loop));
    }
    assert(av.take(attrs@.len() as int) =~= av);
}

fn push_arg(v: &mut Vec<char>, a: &FnArgModel, is_loop: bool)
    ensures
        final(v)@ == old(v)@ + arg_text(a@, is_loop),
{
    match a {
        FnArgModel::Receiver(s) => push_str(v, s.as_str()),
        FnArgModel::Typed { pat, pat_ident, ty, ty_is_context } => {
            if is_loop && *ty_is_context {
                match pat_ident {
                    Some(p) => {
                        push_str(v, p.prefix.as_str());
                        push_str(v, "mut ");
                        push_str(v, p.ident.as_str());
                        push_str(v, p.subpat.as_str());
                    },
                    None => push_str(v, pat.as_str()),
                }
                push_str(v, ": crate::devices::ContextView<'_>");
            } else {
                push_str(v, pat.as_str());
                push_str(v, ": ");
                push_str(v, ty.as_str());
            }
        },
    }
}

fn push_args(v: &mut Vec<char>, args: &Vec<FnArgModel>, is_loop: bool)
    ensures
        final(v)@ == old(v)@ + args_text(args_view(args@), is_loop),
{
    let ghost av = args_view(args@);
    let mut i: usize = 0;
    while i < args.len()
        invariant
            i <= args@.len(),
            av == args_view(args@),
            v@ == old(v)@ + args_text(av.take(i as int), is_loop),
        decreases args@.len() - i,
    {
        assert(av.take(i + 1).drop_last() =~= av.take(i as int));
        assert(av.take(i + 1).last() == args@[i as int]@);
        if i > 0 {
            push_str(v, ", ");
        } else {
            assert(av.take(1) =~= seq![av[0]]);
        }
        push_arg(v, &args[i], is_loop);
        i = i + 1;
        assert(v@ =~= old(v)@ + args_text(av.take(i as int), is_loop));
    }
    assert(av.take(args@.len() as int) =~= av);
}

fn push_body(v: &mut Vec<char>, stmts: &Vec<StmtModel>, is_loop: bool)
    ensures
        final(v)@ == old(v)@ + body_text(stmts_view(stmts@), is_loop),
{
    let ghost sv = stmts_view(stmts@);
    let mut i: usize = 0;
    while i < stmts.len()
        invariant
            i <= stmts@.len(),
            sv == stmts_view(stmts@),
            v@ == old(v)@ + body_text(sv.take(i as int), is_loop),
        decreases stmts@.len() - i,
    {
        assert(sv.take(i + 1).drop_last() =~= sv.take(i as int));
        assert(sv.take(i + 1).last() == stmts@[i as int]@);
        let s = &stmts[i];
        if !(is_loop && s.once.is_some()) {
            push_str(v, "    ");
            push_str(v, s.text.as_str());
            push_str(v, "\n");
        }
        i = i + 1;
        assert(v@ =~= old(v)@ + body_text(sv.take(i as int), is_loop));
    }
    assert(sv.take(stmts@.len() as int) =~= sv);
}

fn push_once(v: &mut Vec<char>, stmts: &Vec<StmtModel>)
    ensures
        final(v)@ == old(v)@ + once_text(stmts_view(stmts@)),
{
    let ghost sv = stmts_view(stmts@);
    let mut any = false;
    let mut i: usize = 0;
    while i < stmts.len()
        invariant
            i <= stmts@.len(),
            sv == stmts_view(stmts@),
            v@ == old(v)@ + once_text(sv.take(i as int)),
            any == (once_text(sv.take(i as int)).len() > 0),
        decreases stmts@.len() - i,
    {
        assert(sv.take(i + 1).drop_last() =~= sv.take(i as int));
        assert(sv.take(i + 1).last() == stmts@[i as int]@);
        match &stmts[i].once {
            Some(t) => {
                if any {
                    push_str(v, ";");
                }
                push_str(v, t.as_str());
                any = any || !t.as_str().is_empty();
            },
            None => {},
        }
        i = i + 1;
        assert(v@ =~= old(v)@ + once_text(sv.take(i as int)));
    }
    assert(sv.take(stmts@.len() as int) =~= sv);
}

fn push_fn(v: &mut Vec<char>, f: &FnModel, is_init: bool, is_loop: bool)
    ensures
        final(v)@ == old(v)@ + fn_text(f@, is_init, is_loop),
{
    push_kept_attrs(v, &f.attrs, is_init, is_loop);
    push_str(v, "pub ");
    push_str(v, f.sig_prefix.as_str());
    push_str(v, " ");
    push_str(v, f.name.as_str());
    push_str(v, f.generics.as_str());
    push_str(v, "(");
    push_args(v, &f.args, is_loop);
    push_str(v, ") ");
    push_str(v, f.sig_suffix.as_str());
    push_str(v, " {\n");
    push_body(v, &f.stmts, is_loop);
    push_str(v, "}\n");
}

fn push_task(v: &mut Vec<char>, f: &FnModel, rate: u64)
    ensures
        final(v)@ == old(v)@ + task_text(f@, rate as nat),
{
    push_str(v, "#[embassy_executor::task]\nasync fn ");
    push_str(v, f.name.as_str());
    push_str(v, "_task(mut ctx: crate::devices::StoredContext) {\n");
    push_once(v, &f.stmts);
    push_str(v, "\n    loop {\n        crate::app::");
    push_str(v, f.name.as_str());
    push_str(v, "(ctx.view()).await;\n        ::Oreos::embassy_time::Timer::after_millis(");
    let mut d = crate::text::decimal_chars_u64(rate);
    v.append(&mut d);
    push_str(v, "u64).await;\n    }\n}\n");
}

fn init_value(args: &Vec<MetaArg>, cfg: Option<String>) -> (r: Result<Option<String>, String>)
    ensures
        match r {
            Ok(c) => init_config(metas_view(args@), opt_str(cfg)) == Ok::<Option<Seq<char>>, Seq<char>>(
                opt_str(c),
            ),
            Err(e) => init_config(metas_view(args@), opt_str(cfg)) == Err::<Option<Seq<char>>, Seq<char>>(
                e@,
            ),
        },
{
    let ghost mv = metas_view(args@);
    let mut cfg = cfg;
    let ghost start = opt_str(cfg);
    let mut i: usize = 0;
    assert(mv.skip(0) =~= mv);
    while i < args.len()
        invariant
            i <= args@.len(),
            mv == metas_view(args@),
            init_config(mv, start) == init_config(mv.skip(i as int), opt_str(cfg)),
        decreases args@.len() - i,
    {
        assert(mv.skip(i as int)[0] == args@[i as int]@);
        assert(mv.skip(i as int).skip(1) =~= mv.skip(i + 1));
        match &args[i] {
            MetaArg::NameValue { key, value, .. } => {
                if same_text(key.as_str(), "config") {
                    cfg = Some(value.clone());
                } else {
                    return Err("Expected key = value".to_owned());
                }
            },
            _ => return Err("Expected key = value".to_owned()),
        }
        i = i + 1;
    }
    Ok(cfg)
}

fn loop_value(args: &Vec<MetaArg>) -> (r: Result<u64, String>)
    ensures
        match r {
            Ok(rate) => loop_rate(metas_view(args@), 1000) == Ok::<nat, Seq<char>>(rate as nat),
            Err(e) => loop_rate(metas_view(args@), 1000) == Err::<nat, Seq<char>>(e@),
        },
{
    let ghost mv = metas_view(args@);
    let mut rate: u64 = 1000;
    let mut i: usize = 0;
    assert(mv.skip(0) =~= mv);
    while i < args.len()
        invariant
            i <= args@.len(),
            mv == metas_view(args@),
            loop_rate(mv, 1000) == loop_rate(mv.skip(i as int), rate as nat),
        decreases args@.len() - i,
    {
        assert(mv.skip(i as int)[0] == args@[i as int]@);
        assert(mv.skip(i as int).skip(1) =~= mv.skip(i + 1));
        match &args[i] {
            MetaArg::NameValue { key, int_digits, .. } => {
                if same_text(key.as_str(), "rate") {
                    match int_digits {
                        None => return Err("Expected an integer".to_owned()),
                        Some(d) => match parse_decimal(d, u64::MAX) {
                            Err(e) => return Err(e),
                            Ok(x) => {
                                rate = x;
                            },
                        },
                    }
                } else if same_text(key.as_str(), "priority") {
                    match int_digits {
                        None => return Err("Expected an integer".to_owned()),
                        Some(d) => match parse_decimal(d, 255) {
                            Err(e) => return Err(e),
                            Ok(_) => {},
                        },
                    }
                }
            },
            _ => {},
        }
        i = i + 1;
    }
    Ok(rate)
}

/// The walk's state while it runs.
struct AppAcc {
    pub items: Vec<char>,
    pub init: Option<String>,
    pub config: Option<String>,
    pub spawns: Vec<char>,
    pub tasks: Vec<char>,
}

impl View for AppAcc {
    type V = AppState;

    closed spec fn view(&self) -> AppState {
        AppState {
            items: self.items@,
            init: opt_str(self.init),
            config: opt_str(self.config),
            spawns: self.spawns@,
            tasks: self.tasks@,
        }
    }
}

/// The `#[init]` part of a function's step.
fn step_init(acc: &mut AppAcc, f: &FnModel) -> (r: Result<bool, String>)
    ensures
        ({
            let fv = f@;
            let is_init = has_fn_attr(fv.attrs, "init"@);
            let st = old(acc)@;
            let expected: Result<AppState, Seq<char>> = if is_init {
                match first_attr(fv.attrs, "init"@).args {
                    Err(e) => Err(e),
                    Ok(args) => if st.init is Some {
                        Err("only one #[init] is allowed"@)
                    } else {
                        match init_config(args, st.config) {
                            Err(e) => Err(e),
                            Ok(cfg) => Ok(AppState { init: Some(fv.name), config: cfg, ..st }),
                        }
                    },
                }
            } else {
                Ok(st)
            };
            match r {
                Ok(b) => b == is_init && expected == Ok::<AppState, Seq<char>>(final(acc)@),
                Err(e) => expected == Err::<AppState, Seq<char>>(e@),
            }
        }),
{
    let init_at = attr_index(&f.attrs, "init");
    match init_at {
        Some(k) => {
            let args = match &f.attrs[k].args {
                Ok(a) => a,
                Err(e) => {
                    return Err(e.clone());
                },
            };
            if acc.init.is_some() {
                return Err("only one #[init] is allowed".to_owned());
            }
            let cfg = acc.config.clone();
            proof {
                assert(opt_str(cfg) == opt_str(acc.config));
            }
            match init_value(args, cfg) {
                Ok(c) => {
                    acc.config = c;
                },
                Err(e) => {
                    return Err(e);
                },
            }
            acc.init = Some(f.name.clone());
            Ok(true)
        },
        None => Ok(false),
    }
}

/// One function's step of the walk.
fn step_fn(acc: &mut AppAcc, f: &FnModel) -> (r: Result<(), String>)
    ensures
        match r {
            Ok(_) => app_step(old(acc)@, ItemView::Fn(f@)) == Ok::<AppState, Seq<char>>(final(acc)@),
            Err(e) => app_step(old(acc)@, ItemView::Fn(f@)) == Err::<AppState, Seq<char>>(e@),
        },
{
    let ghost st = acc@;
    let is_init = match step_init(acc, f) {
        Ok(b) => b,
        Err(e) => {
            return Err(e);
        },
    };
    let ghost s1 = acc@;
    let loop_at = attr_index(&f.attrs, "loop_");
    match loop_at {
        Some(k) => {
            let args = match &f.attrs[k].args {
                Ok(a) => a,
                Err(e) => {
                    return Err(e.clone());
                },
            };
            let rate = match loop_value(args) {
                Ok(r) => r,
                Err(e) => {
                    return Err(e);
                },
            };
            push_fn(&mut acc.items, f, is_init, true);
            push_str(&mut acc.spawns, "    spawner.spawn(");
            push_str(&mut acc.spawns, f.name.as_str());
            push_str(&mut acc.spawns, "_task(ctx).unwrap());\n");
            push_task(&mut acc.tasks, f, rate);
            assert(acc.items@ == s1.items + fn_text(f@, is_init, true));
            assert(acc.spawns@ =~= s1.spawns + spawn_text(f@));
            assert(acc.tasks@ == s1.tasks + task_text(f@, rate as nat));
            assert(opt_str(acc.init) == s1.init);
            assert(acc@ == AppState {
                items: s1.items + fn_text(f@, is_init, true),
                spawns: s1.spawns + spawn_text(f@),
                tasks: s1.tasks + task_text(f@, rate as nat),
                ..s1
            });
        },
        None => {
            push_fn(&mut acc.items, f, is_init, false);
            assert(acc@ == AppState { items: s1.items + fn_text(f@, is_init, false), ..s1 });
        },
    }
    Ok(())
}

/// The application attribute: each function of the module made public; the
/// `#[init]` function (only one, with at most `config = ...`) called by
/// `main` after the HAL crate's `init` with that configuration (or the
/// default); and for each `#[loop_(rate = ..)]` function a task that runs its
/// `#[once]` lets and then calls it with a view of the device context every
/// `rate` milliseconds (1000 by default), spawned by `main`. Without an
/// `#[init]` function `main` holds a compile error saying so.
pub fn app(m: &ModuleModel, hal: &str) -> (r: Result<String, String>)
    ensures
        match r {
            Ok(s) => spec_app(m@, hal@) == Ok::<Seq<char>, Seq<char>>(s@),
            Err(e) => spec_app(m@, hal@) == Err::<Seq<char>, Seq<char>>(e@),
        },
{
    let mut acc = AppAcc {
        items: Vec::new(),
        init: None,
        config: None,
        spawns: Vec::new(),
        tasks: Vec::new(),
    };
    assert(acc@ == app_start());
    match &m.items {
        None => {},
        Some(items) => {
            let ghost iv = items_view(items@);
            assert(m@.items == Some(iv));
            let mut i: usize = 0;
            while i < items.len()
                invariant
                    i <= items@.len(),
                    iv == items_view(items@),
                    m@.items == Some(iv),
                    app_walk(iv.take(i as int)) == Ok::<AppState, Seq<char>>(acc@),
                decreases items@.len() - i,
            {
                assert(iv.take(i + 1).drop_last() =~= iv.take(i as int));
                assert(iv.take(i + 1).last() == items@[i as int]@);
                match &items[i] {
                    AppItem::Other(t) => {
                        push_str(&mut acc.items, t.as_str());
                        push_str(&mut acc.items, "\n");
                    },
                    AppItem::Fn(f) => {
                        match step_fn(&mut acc, f) {
                            Ok(_) => {},
                            Err(e) => {
                                proof {
                                    lemma_walk_err(iv, i as int, e@);
                                }
                                return Err(e);
                            },
                        }
                    },
                }
                i = i + 1;
            }
            assert(iv.take(items@.len() as int) =~= iv);
        },
    }
    let ghost st = acc@;
    assert(spec_app(m@, hal@) == Ok::<Seq<char>, Seq<char>>(app_expansion(m@, hal@, st)));
    let mut v: Vec<char> = Vec::new();
    push_str(&mut v, m.attrs.as_str());
    push_str(&mut v, m.vis.as_str());
    push_str(&mut v, " mod ");
    push_str(&mut v, m.name.as_str());
    match &m.items {
        Some(_) => {
            push_str(&mut v, " {\nuse super::*;\nuse crate::devices::*;\n");
            v.append(&mut acc.items);
            push_str(&mut v, "}\n");
        },
        None => {
            push_str(&mut v, ";\n");
        },
    }
    push_str(
        &mut v,
        "#[embassy_executor::main]\nasync fn main(spawner: embassy_executor::Spawner) {\n    use crate::app::*;\n    let p = ",
    );
    push_str(&mut v, hal);
    push_str(&mut v, "::init(");
    match &acc.config {
        Some(c) => push_str(&mut v, c.as_str()),
        None => push_str(&mut v, "Default::default()"),
    }
    push_str(&mut v, ");\n    let dev: devices::Devices = ");
    match &acc.init {
        Some(n) => push_str(&mut v, n.as_str()),
        None => push_str(&mut v, "::core::compile_error! { \"Missing #[init] function\" }"),
    }
    push_str(&mut v, "(p, spawner).await;\n    let ctx = devices::__init_devices__(spawner, dev);\n");
    v.append(&mut acc.spawns);
    push_str(&mut v, "}\n");
    v.append(&mut acc.tasks);
    assert(v@ =~= app_expansion(m@, hal@, st));
    Ok(string_from_chars(&v))
}

proof fn lemma_walk_err(items: Seq<ItemView>, i: int, e: Seq<char>)
    requires
        0 <= i < items.len(),
        app_walk(items.take(i)) is Ok,
        app_step(app_walk(items.take(i))->Ok_0, items[i]) == Err::<AppState, Seq<char>>(e),
    ensures
        app_walk(items) == Err::<AppState, Seq<char>>(e),
    decreases items.len(),
{
    if i == items.len() - 1 {
        assert(items.drop_last() =~= items.take(i));
    } else {
        assert(items.drop_last().take(i) =~= items.take(i));
        lemma_walk_err(items.drop_last(), i, e);
    }
}

} // verus!
