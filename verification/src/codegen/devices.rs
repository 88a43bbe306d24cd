//! The expansion of `#[devices]`: the statics that hold the application's
//! devices, the context each task keeps and the view it hands to user code,
//! and the start-up that fills them.

use vstd::prelude::*;
use crate::codegen::device::upper;
use crate::text::{chars_of, push_str, string_from_chars};

verus! {

/// An entry of the device list: its name, its type as token text, and the
/// paths of its attributes.
pub struct DeviceItemModel {
    pub name: String,
    pub ty: String,
    pub attrs: Vec<String>,
}

pub struct DeviceItemView {
    pub name: Seq<char>,
    pub ty: Seq<char>,
    pub attrs: Seq<Seq<char>>,
}

impl View for DeviceItemModel {
    type V = DeviceItemView;

    open spec fn view(&self) -> DeviceItemView {
        DeviceItemView {
            name: self.name@,
            ty: self.ty@,
            attrs: crate::cli::scanner::strings_view(self.attrs@),
        }
    }
}

pub open spec fn items_view(v: Seq<DeviceItemModel>) -> Seq<DeviceItemView> {
    v.map_values(|i: DeviceItemModel| i@)
}

/// `#[device]` items are devices started at start-up; `#[shared]` items
/// (other than devices) are shared between tasks; the rest are owned.
pub open spec fn item_kind(i: DeviceItemView) -> int {
    if i.attrs.contains("device"@) {
        2
    } else if i.attrs.contains("shared"@) {
        1
    } else {
        0
    }
}

/// The items of one kind, in order, as name and type.
pub open spec fn items_of(v: Seq<DeviceItemView>, kind: int) -> Seq<(Seq<char>, Seq<char>)>
    decreases v.len(),
{
    if v.len() == 0 {
        Seq::empty()
    } else {
        items_of(v.drop_last(), kind) + if item_kind(v.last()) == kind {
            seq![(v.last().name, v.last().ty)]
        } else {
            Seq::empty()
        }
    }
}

/// The generated text for one item in each place it occurs.
pub open spec fn item_piece(it: (Seq<char>, Seq<char>), kind: int) -> Seq<char> {
    let (n, t) = it;
    let u = upper(n);
    if kind == 0 {
        "    pub static __"@ + u + "__: ::static_cell::StaticCell<::shared_cell::SharedCell<"@ + t + ">> = ::static_cell::StaticCell::new();\n"@
    } else if kind == 1 {
        "    pub static __"@ + u + "__: ::static_cell::StaticCell<"@ + t + "> = ::static_cell::StaticCell::new();\n"@
    } else if kind == 2 {
        "        pub "@ + n + ": *mut "@ + t + ",\n"@
    } else if kind == 3 {
        "        pub "@ + n + ": &'static ::shared_cell::SharedCell<"@ + t + ">,\n"@
    } else if kind == 4 {
        "        pub "@ + n + ": &'__ctx mut "@ + t + ",\n"@
    } else if kind == 5 {
        "        pub "@ + n + ": ::Shared<"@ + t + ">,\n"@
    } else if kind == 6 {
        "                "@ + n + ": unsafe { &mut *self."@ + n + " },\n"@
    } else if kind == 7 {
        "                "@ + n + ": crate::Shared(self."@ + n + "),\n"@
    } else if kind == 8 {
        "        pub "@ + n + ": "@ + t + ",\n"@
    } else if kind == 9 {
        "        let "@ + n + ": *mut "@ + t + " = __"@ + u + "__.init(device."@ + n + ") as *mut _;\n        let __"@ + n + "_static_ref__: &'static "@ + t + " = unsafe { &*("@ + n + " as *const "@ + t + ") };\n        __"@ + n + "_static_ref__.start(spawner);\n"@
    } else if kind == 10 {
        "            "@ + n + ": __"@ + u + "__.init(device."@ + n + ") as *mut _,\n"@
    } else if kind == 11 {
        "            "@ + n + ",\n"@
    } else {
        "            "@ + n + ": __"@ + u + "__.init(::shared_cell::SharedCell::new(device."@ + n + ")),\n"@
    }
}

pub open spec fn per_item(v: Seq<(Seq<char>, Seq<char>)>, kind: int) -> Seq<char>
    decreases v.len(),
{
    if v.len() == 0 {
        Seq::empty()
    } else {
        per_item(v.drop_last(), kind) + item_piece(v.last(), kind)
    }
}

/// The statics and the stored context.
pub open spec fn statics_text(ns: Seq<(Seq<char>, Seq<char>)>, sh: Seq<(Seq<char>, Seq<char>)>, dv: Seq<(Seq<char>, Seq<char>)>) -> Seq<char> {
    "pub mod devices {\n    use super::*;\n"@
        + per_item(sh, 0)
        + per_item(ns, 1)
        + per_item(dv, 1)
        + "    #[derive(Copy, Clone)]\n    pub struct StoredContext {\n"@
        + per_item(ns, 2)
        + per_item(dv, 2)
        + per_item(sh, 3)
        + "    }\n    unsafe impl Send for StoredContext {}\n    unsafe impl Sync for StoredContext {}\n    pub struct ContextView<'__ctx> {\n"@
}

/// The view handed to user code, and how the context makes it.
pub open spec fn view_text(ns: Seq<(Seq<char>, Seq<char>)>, sh: Seq<(Seq<char>, Seq<char>)>, dv: Seq<(Seq<char>, Seq<char>)>) -> Seq<char> {
    per_item(ns, 4)
        + per_item(dv, 4)
        + per_item(sh, 5)
        + "        pub(crate) _phantom: ::core::marker::PhantomData<&'__ctx ()>,\n    }\n    impl StoredContext {\n        pub fn view(&mut self) -> ContextView<'_> {\n            ContextView {\n"@
        + per_item(ns, 6)
        + per_item(dv, 6)
        + per_item(sh, 7)
        + "                _phantom: ::core::marker::PhantomData,\n            }\n        }\n    }\n    pub struct Devices {\n"@
}

/// The `Devices` struct, the start-up and the re-exports.
pub open spec fn init_text(ns: Seq<(Seq<char>, Seq<char>)>, sh: Seq<(Seq<char>, Seq<char>)>, dv: Seq<(Seq<char>, Seq<char>)>) -> Seq<char> {
    per_item(sh, 8)
        + per_item(ns, 8)
        + per_item(dv, 8)
        + "    }\n    pub fn __init_devices__(spawner: ::embassy_executor::Spawner, device: Devices) -> StoredContext {\n"@
        + per_item(dv, 9)
        + "        StoredContext {\n"@
        + per_item(ns, 10)
        + per_item(dv, 11)
        + per_item(sh, 12)
        + "        }\n    }\n}\npub use devices::ContextView as Context;\npub use devices::StoredContext;\npub use devices::Devices;\n"@
}

/// The expansion for the device list.
pub open spec fn devices_expansion(items: Seq<DeviceItemView>) -> Seq<char> {
    let ns = items_of(items, 0);
    let sh = items_of(items, 1);
    let dv = items_of(items, 2);
    statics_text(ns, sh, dv) + view_text(ns, sh, dv) + init_text(ns, sh, dv)
}

struct Item {
    name: String,
    ty: String,
    upper: String,
}

spec fn item_entry(i: Item) -> (Seq<char>, Seq<char>) {
    (i.name@, i.ty@)
}

spec fn entries(v: Seq<Item>) -> Seq<(Seq<char>, Seq<char>)> {
    v.map_values(|i: Item| item_entry(i))
}

spec fn uppers_ok(v: Seq<Item>) -> bool {
    forall|k: int| 0 <= k < v.len() ==> (#[trigger] v[k]).upper@ == upper(v[k].name@)
}

fn contains_path(v: &Vec<String>, p: &str) -> (b: bool)
    ensures
        b == crate::cli::scanner::strings_view(v@).contains(p@),
{
    let ghost sv = crate::cli::scanner::strings_view(v@);
    let mut i: usize = 0;
    while i < v.len()
        invariant
            i <= v@.len(),
            sv == crate::cli::scanner::strings_view(v@),
            forall|j: int| 0 <= j < i ==> sv[j] != p@,
        decreases v@.len() - i,
    {
        assert(sv[i as int] == v@[i as int]@);
        if crate::text::same_text(v[i].as_str(), p) {
            return true;
        }
        i = i + 1;
    }
    false
}

fn upper_of(s: &String) -> (r: String)
    ensures
        r@ == upper(s@),
{
    let cs = chars_of(s.as_str());
    let mut v: Vec<char> = Vec::new();
    let mut i: usize = 0;
    while i < cs.len()
        invariant
            i <= cs@.len(),
            cs@ == s@,
            v@ == upper(cs@.take(i as int)),
        decreases cs@.len() - i,
    {
        assert(cs@.take(i + 1).drop_last() =~= cs@.take(i as int));
        let mut u = crate::casing::to_uppercase_chars(cs[i]);
        v.append(&mut u);
        i = i + 1;
    }
    assert(cs@.take(cs@.len() as int) =~= cs@);
    string_from_chars(&v)
}

fn collect(items: &Vec<DeviceItemModel>, kind: u8) -> (r: Vec<Item>)
    ensures
        entries(r@) == items_of(items_view(items@), kind as int),
        uppers_ok(r@),
{
    let ghost iv = items_view(items@);
    let mut out: Vec<Item> = Vec::new();
    let mut i: usize = 0;
    while i < items.len()
        invariant
            i <= items@.len(),
            iv == items_view(items@),
            entries(out@) == items_of(iv.take(i as int), kind as int),
            uppers_ok(out@),
        decreases items@.len() - i,
    {
        assert(iv.take(i + 1).drop_last() =~= iv.take(i as int));
        assert(iv.take(i + 1).last() == items@[i as int]@);
        let it = &items[i];
        let k: u8 = if contains_path(&it.attrs, "device") {
            2
        } else if contains_path(&it.attrs, "shared") {
            1
        } else {
            0
        };
        let ghost before = entries(out@);
        if k == kind {
            out.push(Item { name: it.name.clone(), ty: it.ty.clone(), upper: upper_of(&it.name) });
            assert(entries(out@) =~= before + seq![(it@.name, it@.ty)]);
        } else {
            assert(before + Seq::<(Seq<char>, Seq<char>)>::empty() =~= before);
        }
        i = i + 1;
    }
    assert(iv.take(items@.len() as int) =~= iv);
    out
}

fn push_low_piece(v: &mut Vec<char>, it: &Item, kind: u8)
    requires
        it.upper@ == upper(it.name@),
        kind < 7,
    ensures
        final(v)@ == old(v)@ + item_piece(item_entry(*it), kind as int),
{
    let n = it.name.as_str();
    let t = it.ty.as_str();
    let u = it.upper.as_str();
    if kind == 0 {
        push_str(v, "    pub static __");
        push_str(v, u);
        push_str(v, "__: ::static_cell::StaticCell<::shared_cell::SharedCell<");
        push_str(v, t);
        push_str(v, ">> = ::static_cell::StaticCell::new();\n");
    } else if kind == 1 {
        push_str(v, "    pub static __");
        push_str(v, u);
        push_str(v, "__: ::static_cell::StaticCell<");
        push_str(v, t);
        push_str(v, "> = ::static_cell::StaticCell::new();\n");
    } else if kind == 2 {
        push_str(v, "        pub ");
        push_str(v, n);
        push_str(v, ": *mut ");
        push_str(v, t);
        push_str(v, ",\n");
    } else if kind == 3 {
        push_str(v, "        pub ");
        push_str(v, n);
        push_str(v, ": &'static ::shared_cell::SharedCell<");
        push_str(v, t);
        push_str(v, ">,\n");
    } else if kind == 4 {
        push_str(v, "        pub ");
        push_str(v, n);
        push_str(v, ": &'__ctx mut ");
        push_str(v, t);
        push_str(v, ",\n");
    } else if kind == 5 {
        push_str(v, "        pub ");
        push_str(v, n);
        push_str(v, ": ::Shared<");
        push_str(v, t);
        push_str(v, ">,\n");
    } else {
        push_str(v, "                ");
        push_str(v, n);
        push_str(v, ": unsafe { &mut *self.");
        push_str(v, n);
        push_str(v, " },\n");
    }
}

fn push_high_piece(v: &mut Vec<char>, it: &Item, kind: u8)
    requires
        it.upper@ == upper(it.name@),
        kind >= 7,
    ensures
        final(v)@ == old(v)@ + item_piece(item_entry(*it), kind as int),
{
    let n = it.name.as_str();
    let t = it.ty.as_str();
    let u = it.upper.as_str();
    if kind == 7 {
        push_str(v, "                ");
        push_str(v, n);
        push_str(v, ": crate::Shared(self.");
        push_str(v, n);
        push_str(v, "),\n");
    } else if kind == 8 {
        push_str(v, "        pub ");
        push_str(v, n);
        push_str(v, ": ");
        push_str(v, t);
        push_str(v, ",\n");
    } else if kind == 9 {
        push_str(v, "        let ");
        push_str(v, n);
        push_str(v, ": *mut ");
        push_str(v, t);
        push_str(v, " = __");
        push_str(v, u);
        push_str(v, "__.init(device.");
        push_str(v, n);
        push_str(v, ") as *mut _;\n        let __");
        push_str(v, n);
        push_str(v, "_static_ref__: &'static ");
        push_str(v, t);
        push_str(v, " = unsafe { &*(");
        push_str(v, n);
        push_str(v, " as *const ");
        push_str(v, t);
        push_str(v, ") };\n        __");
        push_str(v, n);
        push_str(v, "_static_ref__.start(spawner);\n");
    } else if kind == 10 {
        push_str(v, "            ");
        push_str(v, n);
        push_str(v, ": __");
        push_str(v, u);
        push_str(v, "__.init(device.");
        push_str(v, n);
        push_str(v, ") as *mut _,\n");
    } else if kind == 11 {
        push_str(v, "            ");
        push_str(v, n);
        push_str(v, ",\n");
    } else {
        push_str(v, "            ");
        push_str(v, n);
        push_str(v, ": __");
        push_str(v, u);
        push_str(v, "__.init(::shared_cell::SharedCell::new(device.");
        push_str(v, n);
        push_str(v, ")),\n");
    }
}

fn push_item_piece(v: &mut Vec<char>, it: &Item, kind: u8)
    requires
        it.upper@ == upper(it.name@),
    ensures
        final(v)@ == old(v)@ + item_piece(item_entry(*it), kind as int),
{
    if kind < 7 {
        push_low_piece(v, it, kind);
    } else {
        push_high_piece(v, it, kind);
    }
}

fn push_statics(v: &mut Vec<char>, ns: &Vec<Item>, sh: &Vec<Item>, dv: &Vec<Item>)
    requires
        uppers_ok(ns@),
        uppers_ok(sh@),
        uppers_ok(dv@),
    ensures
        final(v)@ == old(v)@ + statics_text(entries(ns@), entries(sh@), entries(dv@)),
{
    push_str(v, "pub mod devices {\n    use super::*;\n");
    push_per_item(v, &sh, 0);
    push_per_item(v, &ns, 1);
    push_per_item(v, &dv, 1);
    push_str(v, "    #[derive(Copy, Clone)]\n    pub struct StoredContext {\n");
    push_per_item(v, &ns, 2);
    push_per_item(v, &dv, 2);
    push_per_item(v, &sh, 3);
    push_str(v, "    }\n    unsafe impl Send for StoredContext {}\n    unsafe impl Sync for StoredContext {}\n    pub struct ContextView<'__ctx> {\n");
}

fn push_view(v: &mut Vec<char>, ns: &Vec<Item>, sh: &Vec<Item>, dv: &Vec<Item>)
    requires
        uppers_ok(ns@),
        uppers_ok(sh@),
        uppers_ok(dv@),
    ensures
        final(v)@ == old(v)@ + view_text(entries(ns@), entries(sh@), entries(dv@)),
{
    push_per_item(v, &ns, 4);
    push_per_item(v, &dv, 4);
    push_per_item(v, &sh, 5);
    push_str(v, "        pub(crate) _phantom: ::core::marker::PhantomData<&'__ctx ()>,\n    }\n    impl StoredContext {\n        pub fn view(&mut self) -> ContextView<'_> {\n            ContextView {\n");
    push_per_item(v, &ns, 6);
    push_per_item(v, &dv, 6);
    push_per_item(v, &sh, 7);
    push_str(v, "                _phantom: ::core::marker::PhantomData,\n            }\n        }\n    }\n    pub struct Devices {\n");
}

fn push_init(v: &mut Vec<char>, ns: &Vec<Item>, sh: &Vec<Item>, dv: &Vec<Item>)
    requires
        uppers_ok(ns@),
        uppers_ok(sh@),
        uppers_ok(dv@),
    ensures
        final(v)@ == old(v)@ + init_text(entries(ns@), entries(sh@), entries(dv@)),
{
    push_per_item(v, &sh, 8);
    push_per_item(v, &ns, 8);
    push_per_item(v, &dv, 8);
    push_str(v, "    }\n    pub fn __init_devices__(spawner: ::embassy_executor::Spawner, device: Devices) -> StoredContext {\n");
    push_per_item(v, &dv, 9);
    push_str(v, "        StoredContext {\n");
    push_per_item(v, &ns, 10);
    push_per_item(v, &dv, 11);
    push_per_item(v, &sh, 12);
    push_str(v, "        }\n    }\n}\npub use devices::ContextView as Context;\npub use devices::StoredContext;\npub use devices::Devices;\n");
}


fn push_per_item(v: &mut Vec<char>, items: &Vec<Item>, kind: u8)
    requires
        uppers_ok(items@),
    ensures
        final(v)@ == old(v)@ + per_item(entries(items@), kind as int),
{
    let ghost es = entries(items@);
    let mut i: usize = 0;
    while i < items.len()
        invariant
            i <= items@.len(),
            es == entries(items@),
            uppers_ok(items@),
            v@ == old(v)@ + per_item(es.take(i as int), kind as int),
        decreases items@.len() - i,
    {
        assert(es.take(i + 1).drop_last() =~= es.take(i as int));
        assert(es.take(i + 1).last() == item_entry(items@[i as int]));
        assert(items@[i as int].upper@ == upper(items@[i as int].name@));
        push_item_piece(v, &items[i], kind);
        i = i + 1;
        assert(v@ =~= old(v)@ + per_item(es.take(i as int), kind as int));
    }
    assert(es.take(items@.len() as int) =~= es);
}

/// The device list: a static per device (a `SharedCell` for shared ones), the
/// copyable context of raw pointers and shared references that each task
/// keeps, the view it hands to user code, the `Devices` struct that
/// initialisation returns, and `__init_devices__`, which moves each device
/// into its static, starts the `#[device]` ones and builds the context.
pub fn devices(items: &Vec<DeviceItemModel>) -> (r: String)
    ensures
        r@ == devices_expansion(items_view(items@)),
{
    let ns = collect(items, 0);
    let sh = collect(items, 1);
    let dv = collect(items, 2);
    let mut v: Vec<char> = Vec::new();
    push_statics(&mut v, &ns, &sh, &dv);
    push_view(&mut v, &ns, &sh, &dv);
    push_init(&mut v, &ns, &sh, &dv);
    string_from_chars(&v)
}

} // verus!
