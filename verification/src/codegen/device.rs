//! The expansion of `#[create(Device)]`: the struct with its backends moved
//! into cells, a constructor, the `Device` impl that ticks the kernel and the
//! middleware, one task per backend, and the start-up that spawns them.

use vstd::prelude::*;
use crate::casing::char_upper;
use crate::codegen::derive::{find_last_with_attr, last_with_attr, result_view};
use crate::codegen::model::{
    error, field_has_attr, fields_view, has_attr, AttrView, DataModel, DataView, FieldModel,
    FieldView, ItemModel, ItemView, MacroError,
};
use crate::text::{chars_of, push_str, string_from_chars};

verus! {

/// The attributes that give a field its role in the device.
pub open spec fn is_role(p: Seq<char>) -> bool {
    ||| p == "backend"@
    ||| p == "middleware"@
    ||| p == "kernel"@
    ||| p == "state"@
    ||| p == "config"@
}

/// The field's attributes other than the role attributes, as text.
pub open spec fn kept_attrs(attrs: Seq<AttrView>) -> Seq<char>
    decreases attrs.len(),
{
    if attrs.len() == 0 {
        Seq::empty()
    } else {
        kept_attrs(attrs.drop_last()) + if is_role(attrs.last().path) {
            Seq::empty()
        } else {
            attrs.last().text + " "@
        }
    }
}

/// A field as the device struct declares it: without its role attributes,
/// and for a backend public and held in `UnsafeCell<Option<_>>`.
pub open spec fn field_text(f: FieldView) -> Seq<char> {
    let backend = has_attr(f, "backend"@);
    kept_attrs(f.attrs) + (if backend {
        "pub"@
    } else {
        f.vis
    }) + " "@ + f.name + ": "@ + (if backend {
        "::core::cell::UnsafeCell<Option<"@ + f.ty + ">>"@
    } else {
        f.ty
    }) + ",\n"@
}

pub open spec fn fields_text(fs: Seq<FieldView>) -> Seq<char>
    decreases fs.len(),
{
    if fs.len() == 0 {
        Seq::empty()
    } else {
        fields_text(fs.drop_last()) + field_text(fs.last())
    }
}

/// The device struct, with a `NoMiddleware` field added when none is marked.
pub open spec fn struct_text(item: ItemView, fs: Seq<FieldView>, default_middleware: bool) -> Seq<char> {
    item.attrs + item.vis + " struct "@ + item.name + item.generics + " "@ + item.where_clause
        + " {\n"@ + fields_text(fs) + (if default_middleware {
        "__NO_MIDDLEWARE__: ::Oreos::hal::NoMiddleware,\n"@
    } else {
        Seq::empty()
    }) + "}\n"@
}

/// The text in upper case, character by character.
pub open spec fn upper(s: Seq<char>) -> Seq<char>
    decreases s.len(),
{
    if s.len() == 0 {
        Seq::empty()
    } else {
        upper(s.drop_last()) + char_upper(s.last())
    }
}

/// A backend: its field name and its type.
pub type BackendEntry = (Seq<char>, Seq<char>);

/// The backends, in field order.
pub open spec fn backends(fs: Seq<FieldView>) -> Seq<BackendEntry>
    decreases fs.len(),
{
    if fs.len() == 0 {
        Seq::empty()
    } else {
        backends(fs.drop_last()) + if has_attr(fs.last(), "backend"@) {
            seq![(fs.last().name, fs.last().ty)]
        } else {
            Seq::empty()
        }
    }
}

/// The generated text for one backend in each place it occurs: 0 a
/// constructor parameter, 1 its initialiser, 2 its static and task, 3 taking
/// it out of its cell, 4 moving it into its static, 5 spawning its task.
pub open spec fn backend_piece(b: BackendEntry, kind: int) -> Seq<char> {
    let (n, t) = b;
    let u = upper(n);
    if kind == 0 {
        n + ": "@ + t + ", "@
    } else if kind == 1 {
        n + ": ::core::cell::UnsafeCell::new(Some("@ + n + ")), "@
    } else if kind == 2 {
        "static __"@ + u + "_BACKEND__: ::static_cell::StaticCell<"@ + t
            + "> = ::static_cell::StaticCell::new();\n#[embassy_executor::task]\nasync fn __"@ + u
            + "_TASK__(backend: &'static mut "@ + t
            + ") {\n    loop {\n        backend.tick().await;\n        ::Oreos::embassy_time::Timer::after_millis(10).await;\n    }\n}\n"@
    } else if kind == 3 {
        "        let "@ + n + " = unsafe { &mut *self."@ + n + ".get() }.take().unwrap();\n"@
    } else if kind == 4 {
        "        let "@ + n + " = __"@ + u + "_BACKEND__.init("@ + n + ");\n"@
    } else {
        "        spawner.spawn(__"@ + u + "_TASK__("@ + n + ").unwrap());\n"@
    }
}

pub open spec fn per_backend(bs: Seq<BackendEntry>, kind: int) -> Seq<char>
    decreases bs.len(),
{
    if bs.len() == 0 {
        Seq::empty()
    } else {
        per_backend(bs.drop_last(), kind) + backend_piece(bs.last(), kind)
    }
}

pub open spec fn middleware_name(m: Option<FieldView>) -> Seq<char> {
    match m {
        Some(f) => f.name,
        None => "__NO_MIDDLEWARE__"@,
    }
}

/// The constructor's parameters: one per backend, then the kernel, state,
/// configuration and (when marked) middleware.
pub open spec fn new_params(bs: Seq<BackendEntry>, k: FieldView, s: FieldView, c: FieldView, m: Option<FieldView>) -> Seq<char> {
    let m_param = match m {
        Some(f) => f.name + ": "@ + f.ty + ","@,
        None => Seq::empty(),
    };
    per_backend(bs, 0) + k.name + ": "@ + k.ty + ", "@ + s.name + ": "@ + s.ty + ", "@ + c.name
        + ": "@ + c.ty + ", "@ + m_param
}

/// The constructor's field initialisers: backends go into their cells.
pub open spec fn new_inits(bs: Seq<BackendEntry>, k: FieldView, s: FieldView, c: FieldView, m: Option<FieldView>) -> Seq<char> {
    let m_init = match m {
        Some(f) => f.name,
        None => "__NO_MIDDLEWARE__: ::Oreos::hal::NoMiddleware::default()"@,
    };
    per_backend(bs, 1) + k.name + ", "@ + s.name + ", "@ + c.name + ", "@ + m_init
}

/// The constructor.
pub open spec fn new_text(
    name: Seq<char>,
    bs: Seq<BackendEntry>,
    k: FieldView,
    s: FieldView,
    c: FieldView,
    m: Option<FieldView>,
) -> Seq<char> {
    "impl "@ + name + " {\n    pub fn new("@ + new_params(bs, k, s, c, m)
        + ") -> Self {\n        ::Oreos::defmt::info!(\"creating device: {}\", stringify!("@ + name
        + "));\n        Self { "@ + new_inits(bs, k, s, c, m) + " }\n    }\n}\n"@
}

/// The `Device` impl's tick: the state handed to the kernel, the kernel
/// ticked, its feedback taken, and the middleware `mi` processing the state.
pub open spec fn tick_text(name: Seq<char>, k: FieldView, s: FieldView, c: FieldView, mi: Seq<char>) -> Seq<char> {
    "    fn tick(&mut self, _dt: ::Oreos::fugit::Duration<u32, 1, 1000>) {\n        ::Oreos::defmt::trace!(\"device tick: {}\", stringify!("@
        + name + "));\n        self."@ + k.name + ".state = self."@ + s.name + ".custom;\n        self."@
        + k.name + ".tick();\n        self."@ + s.name + ".custom = self."@ + k.name
        + ".feedback();\n        self."@ + mi + ".process(&mut self."@ + s.name + ", &self."@
        + c.name + ");\n    }\n"@
}

/// The `Device` impl's kernel access and command execution, which goes to
/// the middleware `mi`.
pub open spec fn execute_text(name: Seq<char>, k: FieldView, s: FieldView, c: FieldView, mi: Seq<char>) -> Seq<char> {
    "    fn kernel(&mut self) -> &mut Self::Kernel {\n        &mut self."@ + k.name
        + "\n    }\n    fn execute(&mut self, cmd: Self::Command) {\n        ::Oreos::defmt::debug!(\"device execute command: {}\", stringify!("@
        + name + "));\n        self."@ + mi + ".command(cmd, &mut self."@ + s.name + ", &self."@
        + c.name + ");\n    }\n"@
}

/// The `Device` impl.
pub open spec fn device_impl_text(
    name: Seq<char>,
    k: FieldView,
    s: FieldView,
    c: FieldView,
    mi: Seq<char>,
) -> Seq<char> {
    "impl ::Oreos::hal::Device for "@ + name + " {\n    type Kernel = "@ + k.ty
        + ";\n    type Command = __DeviceCommand;\n"@ + tick_text(name, k, s, c, mi) + execute_text(
        name,
        k,
        s,
        c,
        mi,
    ) + "}\n"@
}

/// The start-up: each backend taken out of its cell, moved into its static,
/// and its task spawned.
pub open spec fn start_text(name: Seq<char>, bs: Seq<BackendEntry>) -> Seq<char> {
    "impl ::Oreos::hal::MaybeDevcie for "@ + name
        + " {\n    fn start(&'static self, spawner: ::embassy_executor::Spawner) {\n"@ + per_backend(bs, 3)
        + per_backend(bs, 4) + per_backend(bs, 5) + "    }\n}\n"@
}

/// The expansion for a device with kernel field `k`, state `s`,
/// configuration `c` and middleware `m` (none when no field is marked and
/// `NoMiddleware` is added).
pub open spec fn device_expansion(
    item: ItemView,
    fs: Seq<FieldView>,
    k: FieldView,
    s: FieldView,
    c: FieldView,
    m: Option<FieldView>,
) -> Seq<char> {
    let bs = backends(fs);
    struct_text(item, fs, m is None) + new_text(item.name, bs, k, s, c, m) + device_impl_text(
        item.name,
        k,
        s,
        c,
        middleware_name(m),
    ) + per_backend(bs, 2) + start_text(item.name, bs)
}

/// What `#[create(Device)]` gives for the item: an error unless it is a
/// struct with fields marked `#[kernel]`, `#[state]` and `#[config]` (the
/// last of each counts), else the device expansion.
pub open spec fn spec_create_device(item: ItemView) -> Result<Seq<char>, Seq<char>> {
    match item.data {
        DataView::Struct(fs) => match (
            last_with_attr(fs, "kernel"@),
            last_with_attr(fs, "state"@),
            last_with_attr(fs, "config"@),
        ) {
            (None, _, _) => Err("missing #[kernel] field"@),
            (Some(_), None, _) => Err("missing #[state] field"@),
            (Some(_), Some(_), None) => Err("missing #[config] field"@),
            (Some(k), Some(s), Some(c)) => Ok(
                device_expansion(item, fs, k, s, c, last_with_attr(fs, "middleware"@)),
            ),
        },
        _ => Err("#[create(Device)] only works on structs"@),
    }
}

fn push_kept_attrs(v: &mut Vec<char>, f: &FieldModel)
    ensures
        final(v)@ == old(v)@ + kept_attrs(f@.attrs),
{
    let ghost av = f@.attrs;
    let mut i: usize = 0;
    while i < f.attrs.len()
        invariant
            i <= f.attrs@.len(),
            av == f@.attrs,
            v@ == old(v)@ + kept_attrs(av.take(i as int)),
        decreases f.attrs@.len() - i,
    {
        assert(av.take(i + 1).drop_last() =~= av.take(i as int));
        assert(av.take(i + 1).last() == f.attrs@[i as int]@);
        let a = &f.attrs[i];
        let p = a.path.as_str();
        let role = crate::text::same_text(p, "backend") || crate::text::same_text(p, "middleware")
            || crate::text::same_text(p, "kernel") || crate::text::same_text(p, "state")
            || crate::text::same_text(p, "config");
        if !role {
            push_str(v, a.text.as_str());
            push_str(v, " ");
        }
        i = i + 1;
        assert(v@ =~= old(v)@ + kept_attrs(av.take(i as int)));
    }
    assert(av.take(f.attrs@.len() as int) =~= av);
}

fn push_fields(v: &mut Vec<char>, fs: &Vec<FieldModel>)
    ensures
        final(v)@ == old(v)@ + fields_text(fields_view(fs@)),
{
    let ghost fv = fields_view(fs@);
    let mut i: usize = 0;
    while i < fs.len()
        invariant
            i <= fs@.len(),
            fv == fields_view(fs@),
            v@ == old(v)@ + fields_text(fv.take(i as int)),
        decreases fs@.len() - i,
    {
        assert(fv.take(i + 1).drop_last() =~= fv.take(i as int));
        assert(fv.take(i + 1).last() == fs@[i as int]@);
        let f = &fs[i];
        let ghost before = v@;
        push_kept_attrs(v, f);
        let backend = field_has_attr(f, "backend");
        if backend {
            push_str(v, "pub");
        } else {
            push_str(v, f.vis.as_str());
        }
        push_str(v, " ");
        push_str(v, f.name.as_str());
        push_str(v, ": ");
        if backend {
            push_str(v, "::core::cell::UnsafeCell<Option<");
            push_str(v, f.ty.as_str());
            push_str(v, ">>");
        } else {
            push_str(v, f.ty.as_str());
        }
        push_str(v, ",\n");
        assert(v@ =~= before + field_text(f@));
        i = i + 1;
        assert(v@ =~= old(v)@ + fields_text(fv.take(i as int)));
    }
    assert(fv.take(fs@.len() as int) =~= fv);
}

fn upper_text(s: &String) -> (r: String)
    ensures
        r@ == upper(s@),
{
    let cs = chars_of(s.as_str());
    let mut v: Vec<char> = Vec::new();
    let mut i: usize = 0;
    while i < cs.len()
        invariant
            i <= cs@.len(),
            cs@ == s@,
            v@ == upper(cs@.take(i as int)),
        decreases cs@.len() - i,
    {
        assert(cs@.take(i + 1).drop_last() =~= cs@.take(i as int));
        let mut u = crate::casing::to_uppercase_chars(cs[i]);
        v.append(&mut u);
        i = i + 1;
    }
    assert(cs@.take(cs@.len() as int) =~= cs@);
    string_from_chars(&v)
}

/// A backend field as the generator holds it: name, type, and name in upper
/// case.
struct Backend {
    name: String,
    ty: String,
    upper: String,
}

spec fn backend_entry(b: Backend) -> BackendEntry {
    (b.name@, b.ty@)
}

spec fn backend_entries(v: Seq<Backend>) -> Seq<BackendEntry> {
    v.map_values(|b: Backend| backend_entry(b))
}

fn collect_backends(fs: &Vec<FieldModel>) -> (r: Vec<Backend>)
    ensures
        backend_entries(r@) == backends(fields_view(fs@)),
        forall|i: int| 0 <= i < r@.len() ==> (#[trigger] r@[i]).upper@ == upper(r@[i].name@),
{
    let ghost fv = fields_view(fs@);
    let mut bs: Vec<Backend> = Vec::new();
    let mut i: usize = 0;
    while i < fs.len()
        invariant
            i <= fs@.len(),
            fv == fields_view(fs@),
            backend_entries(bs@) == backends(fv.take(i as int)),
            forall|k: int| 0 <= k < bs@.len() ==> (#[trigger] bs@[k]).upper@ == upper(bs@[k].name@),
        decreases fs@.len() - i,
    {
        assert(fv.take(i + 1).drop_last() =~= fv.take(i as int));
        assert(fv.take(i + 1).last() == fs@[i as int]@);
        let f = &fs[i];
        let ghost before = backend_entries(bs@);
        if field_has_attr(f, "backend") {
            let b = Backend { name: f.name.clone(), ty: f.ty.clone(), upper: upper_text(&f.name) };
            bs.push(b);
            assert(backend_entries(bs@) =~= before + seq![(f@.name, f@.ty)]);
        } else {
            assert(before + Seq::<BackendEntry>::empty() =~= before);
        }
        i = i + 1;
    }
    assert(fv.take(fs@.len() as int) =~= fv);
    bs
}

fn push_backend_piece(v: &mut Vec<char>, b: &Backend, kind: u8)
    requires
        b.upper@ == upper(b.name@),
    ensures
        final(v)@ == old(v)@ + backend_piece(backend_entry(*b), kind as int),
{
    let n = b.name.as_str();
    let t = b.ty.as_str();
    let u = b.upper.as_str();
    if kind == 0 {
        push_str(v, n);
        push_str(v, ": ");
        push_str(v, t);
        push_str(v, ", ");
    } else if kind == 1 {
        push_str(v, n);
        push_str(v, ": ::core::cell::UnsafeCell::new(Some(");
        push_str(v, n);
        push_str(v, ")), ");
    } else if kind == 2 {
        push_str(v, "static __");
        push_str(v, u);
        push_str(v, "_BACKEND__: ::static_cell::StaticCell<");
        push_str(v, t);
        push_str(v, "> = ::static_cell::StaticCell::new();\n#[embassy_executor::task]\nasync fn __");
        push_str(v, u);
        push_str(v, "_TASK__(backend: &'static mut ");
        push_str(v, t);
        push_str(
            v,
            ") {\n    loop {\n        backend.tick().await;\n        ::Oreos::embassy_time::Timer::after_millis(10).await;\n    }\n}\n",
        );
    } else if kind == 3 {
        push_str(v, "        let ");
        push_str(v, n);
        push_str(v, " = unsafe { &mut *self.");
        push_str(v, n);
        push_str(v, ".get() }.take().unwrap();\n");
    } else if kind == 4 {
        push_str(v, "        let ");
        push_str(v, n);
        push_str(v, " = __");
        push_str(v, u);
        push_str(v, "_BACKEND__.init(");
        push_str(v, n);
        push_str(v, ");\n");
    } else {
        push_str(v, "        spawner.spawn(__");
        push_str(v, u);
        push_str(v, "_TASK__(");
        push_str(v, n);
        push_str(v, ").unwrap());\n");
    }
}

fn push_per_backend(v: &mut Vec<char>, bs: &Vec<Backend>, kind: u8)
    requires
        forall|i: int| 0 <= i < bs@.len() ==> (#[trigger] bs@[i]).upper@ == upper(bs@[i].name@),
    ensures
        final(v)@ == old(v)@ + per_backend(backend_entries(bs@), kind as int),
{
    let ghost be = backend_entries(bs@);
    let mut i: usize = 0;
    while i < bs.len()
        invariant
            i <= bs@.len(),
            be == backend_entries(bs@),
            forall|k: int| 0 <= k < bs@.len() ==> (#[trigger] bs@[k]).upper@ == upper(bs@[k].name@),
            v@ == old(v)@ + per_backend(be.take(i as int), kind as int),
        decreases bs@.len() - i,
    {
        assert(be.take(i + 1).drop_last() =~= be.take(i as int));
        assert(be.take(i + 1).last() == backend_entry(bs@[i as int]));
        assert(bs@[i as int].upper@ == upper(bs@[i as int].name@));
        push_backend_piece(v, &bs[i], kind);
        i = i + 1;
        assert(v@ =~= old(v)@ + per_backend(be.take(i as int), kind as int));
    }
    assert(be.take(bs@.len() as int) =~= be);
}

fn opt_field_view(m: Option<&FieldModel>) -> (r: Ghost<Option<FieldView>>)
    ensures
        r@ == (match m {
            Some(f) => Some(f@),
            None => None::<FieldView>,
        }),
{
    Ghost(
        match m {
            Some(f) => Some(f@),
            None => None,
        },
    )
}

fn push_struct(v: &mut Vec<char>, item: &ItemModel, fs: &Vec<FieldModel>, default_middleware: bool)
    ensures
        final(v)@ == old(v)@ + struct_text(item@, fields_view(fs@), default_middleware),
{
    push_str(v, item.attrs.as_str());
    push_str(v, item.vis.as_str());
    push_str(v, " struct ");
    push_str(v, item.name.as_str());
    push_str(v, item.generics.as_str());
    push_str(v, " ");
    push_str(v, item.where_clause.as_str());
    push_str(v, " {\n");
    push_fields(v, fs);
    if default_middleware {
        push_str(v, "__NO_MIDDLEWARE__: ::Oreos::hal::NoMiddleware,\n");
    }
    push_str(v, "}\n");
}

fn push_new_params(
    v: &mut Vec<char>,
    bs: &Vec<Backend>,
    k: &FieldModel,
    s: &FieldModel,
    c: &FieldModel,
    m: Option<&FieldModel>,
)
    requires
        forall|i: int| 0 <= i < bs@.len() ==> (#[trigger] bs@[i]).upper@ == upper(bs@[i].name@),
    ensures
        final(v)@ == old(v)@ + new_params(
            backend_entries(bs@),
            k@,
            s@,
            c@,
            match m {
                Some(f) => Some(f@),
                None => None::<FieldView>,
            },
        ),
{
    push_per_backend(v, bs, 0);
    push_str(v, k.name.as_str());
    push_str(v, ": ");
    push_str(v, k.ty.as_str());
    push_str(v, ", ");
    push_str(v, s.name.as_str());
    push_str(v, ": ");
    push_str(v, s.ty.as_str());
    push_str(v, ", ");
    push_str(v, c.name.as_str());
    push_str(v, ": ");
    push_str(v, c.ty.as_str());
    push_str(v, ", ");
    match m {
        Some(f) => {
            push_str(v, f.name.as_str());
            push_str(v, ": ");
            push_str(v, f.ty.as_str());
            push_str(v, ",");
        },
        None => {},
    }
}

fn push_new_inits(
    v: &mut Vec<char>,
    bs: &Vec<Backend>,
    k: &FieldModel,
    s: &FieldModel,
    c: &FieldModel,
    m: Option<&FieldModel>,
)
    requires
        forall|i: int| 0 <= i < bs@.len() ==> (#[trigger] bs@[i]).upper@ == upper(bs@[i].name@),
    ensures
        final(v)@ == old(v)@ + new_inits(
            backend_entries(bs@),
            k@,
            s@,
            c@,
            match m {
                Some(f) => Some(f@),
                None => None::<FieldView>,
            },
        ),
{
    push_per_backend(v, bs, 1);
    push_str(v, k.name.as_str());
    push_str(v, ", ");
    push_str(v, s.name.as_str());
    push_str(v, ", ");
    push_str(v, c.name.as_str());
    push_str(v, ", ");
    match m {
        Some(f) => {
            push_str(v, f.name.as_str());
        },
        None => {
            push_str(v, "__NO_MIDDLEWARE__: ::Oreos::hal::NoMiddleware::default()");
        },
    }
}

fn push_new(
    v: &mut Vec<char>,
    name: &str,
    bs: &Vec<Backend>,
    k: &FieldModel,
    s: &FieldModel,
    c: &FieldModel,
    m: Option<&FieldModel>,
)
    requires
        forall|i: int| 0 <= i < bs@.len() ==> (#[trigger] bs@[i]).upper@ == upper(bs@[i].name@),
    ensures
        final(v)@ == old(v)@ + new_text(
            name@,
            backend_entries(bs@),
            k@,
            s@,
            c@,
            match m {
                Some(f) => Some(f@),
                None => None::<FieldView>,
            },
        ),
{
    push_str(v, "impl ");
    push_str(v, name);
    push_str(v, " {\n    pub fn new(");
    push_new_params(v, bs, k, s, c, m);
    push_str(v, ") -> Self {\n        ::Oreos::defmt::info!(\"creating device: {}\", stringify!(");
    push_str(v, name);
    push_str(v, "));\n        Self { ");
    push_new_inits(v, bs, k, s, c, m);
    push_str(v, " }\n    }\n}\n");
}

fn push_tick(v: &mut Vec<char>, name: &str, k: &FieldModel, s: &FieldModel, c: &FieldModel, mi: &str)
    ensures
        final(v)@ == old(v)@ + tick_text(name@, k@, s@, c@, mi@),
{
    push_str(
        v,
        "    fn tick(&mut self, _dt: ::Oreos::fugit::Duration<u32, 1, 1000>) {\n        ::Oreos::defmt::trace!(\"device tick: {}\", stringify!(",
    );
    push_str(v, name);
    push_str(v, "));\n        self.");
    push_str(v, k.name.as_str());
    push_str(v, ".state = self.");
    push_str(v, s.name.as_str());
    push_str(v, ".custom;\n        self.");
    push_str(v, k.name.as_str());
    push_str(v, ".tick();\n        self.");
    push_str(v, s.name.as_str());
    push_str(v, ".custom = self.");
    push_str(v, k.name.as_str());
    push_str(v, ".feedback();\n        self.");
    push_str(v, mi);
    push_str(v, ".process(&mut self.");
    push_str(v, s.name.as_str());
    push_str(v, ", &self.");
    push_str(v, c.name.as_str());
    push_str(v, ");\n    }\n");
}

fn push_execute(v: &mut Vec<char>, name: &str, k: &FieldModel, s: &FieldModel, c: &FieldModel, mi: &str)
    ensures
        final(v)@ == old(v)@ + execute_text(name@, k@, s@, c@, mi@),
{
    push_str(v, "    fn kernel(&mut self) -> &mut Self::Kernel {\n        &mut self.");
    push_str(v, k.name.as_str());
    push_str(
        v,
        "\n    }\n    fn execute(&mut self, cmd: Self::Command) {\n        ::Oreos::defmt::debug!(\"device execute command: {}\", stringify!(",
    );
    push_str(v, name);
    push_str(v, "));\n        self.");
    push_str(v, mi);
    push_str(v, ".command(cmd, &mut self.");
    push_str(v, s.name.as_str());
    push_str(v, ", &self.");
    push_str(v, c.name.as_str());
    push_str(v, ");\n    }\n");
}

fn push_device_impl(
    v: &mut Vec<char>,
    name: &str,
    k: &FieldModel,
    s: &FieldModel,
    c: &FieldModel,
    mi: &str,
)
    ensures
        final(v)@ == old(v)@ + device_impl_text(name@, k@, s@, c@, mi@),
{
    push_str(v, "impl ::Oreos::hal::Device for ");
    push_str(v, name);
    push_str(v, " {\n    type Kernel = ");
    push_str(v, k.ty.as_str());
    push_str(v, ";\n    type Command = __DeviceCommand;\n");
    push_tick(v, name, k, s, c, mi);
    push_execute(v, name, k, s, c, mi);
    push_str(v, "}\n");
}

fn push_start(v: &mut Vec<char>, name: &str, bs: &Vec<Backend>)
    requires
        forall|i: int| 0 <= i < bs@.len() ==> (#[trigger] bs@[i]).upper@ == upper(bs@[i].name@),
    ensures
        final(v)@ == old(v)@ + start_text(name@, backend_entries(bs@)),
{
    push_str(v, "impl ::Oreos::hal::MaybeDevcie for ");
    push_str(v, name);
    push_str(v, " {\n    fn start(&'static self, spawner: ::embassy_executor::Spawner) {\n");
    push_per_backend(v, bs, 3);
    push_per_backend(v, bs, 4);
    push_per_backend(v, bs, 5);
    push_str(v, "    }\n}\n");
}

/// The device attribute: the struct with backends public and held in
/// `UnsafeCell<Option<_>>` (role attributes removed, `NoMiddleware` added
/// when no field is marked `#[middleware]`); a constructor over the backends,
/// kernel, state, configuration and middleware; a `Device` impl whose tick
/// hands the state to the kernel, ticks it, takes its feedback and lets the
/// middleware process it, and whose commands go to the middleware; for each
/// backend a static and a task that ticks it every 10 ms; and a start-up that
/// moves each backend into its static and spawns its task.
pub fn create_device(item: &ItemModel) -> (r: Result<String, MacroError>)
    ensures
        result_view(r) == spec_create_device(item@),
{
    let fs = match &item.data {
        DataModel::Struct(fs) => fs,
        _ => return Err(error("#[create(Device)] only works on structs")),
    };
    let ghost fv = fields_view(fs@);
    let k = match find_last_with_attr(fs, "kernel") {
        Some(i) => &fs[i],
        None => return Err(error("missing #[kernel] field")),
    };
    let s = match find_last_with_attr(fs, "state") {
        Some(i) => &fs[i],
        None => return Err(error("missing #[state] field")),
    };
    let c = match find_last_with_attr(fs, "config") {
        Some(i) => &fs[i],
        None => return Err(error("missing #[config] field")),
    };
    let m = match find_last_with_attr(fs, "middleware") {
        Some(i) => Some(&fs[i]),
        None => None,
    };
    let mv = opt_field_view(m);
    let bs = collect_backends(fs);
    let name = item.name.as_str();
    let mi: &str = match m {
        Some(f) => f.name.as_str(),
        None => "__NO_MIDDLEWARE__",
    };
    let mut v: Vec<char> = Vec::new();
    push_struct(&mut v, item, fs, m.is_none());
    let ghost p1 = v@;
    push_new(&mut v, name, &bs, k, s, c, m);
    let ghost p2 = v@;
    push_device_impl(&mut v, name, k, s, c, mi);
    let ghost p3 = v@;
    push_per_backend(&mut v, &bs, 2);
    let ghost p4 = v@;
    push_start(&mut v, name, &bs);
    proof {
        assert(mv@ == last_with_attr(fv, "middleware"@));
        assert(mi@ == middleware_name(mv@));
        let bsv = backends(fv);
        assert(p1 =~= struct_text(item@, fv, mv@ is None));
        assert(p2 =~= p1 + new_text(item@.name, bsv, k@, s@, c@, mv@));
        assert(v@ =~= device_expansion(item@, fv, k@, s@, c@, mv@));
    }
    Ok(string_from_chars(&v))
}

} // verus!
