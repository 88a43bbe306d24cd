//! The expansions of the derives that only name the item they are applied
//! to, and of the kernel derive.

use vstd::prelude::*;
use crate::codegen::model::{
    error, field_has_attr, has_attr, DataModel, DataView, FieldModel, FieldView, ItemModel,
    MacroError,
};
use crate::text::{push_str, string_from_chars};

verus! {

/// What `#[derive(Config)]` expands to for the type `name`.
pub open spec fn config_expansion(name: Seq<char>) -> Seq<char> {
    "pub type __DeviceConfig = "@
        + name
        + ";\nimpl ::Oreos::hal::Config for "@
        + name
        + " {}\n"@
}

/// Marks `name` as the device configuration: the `__DeviceConfig` alias and the `Config` impl.
pub fn derive_config(name: &str) -> (r: String)
    ensures
        r@ == config_expansion(name@),
{
    let mut v: Vec<char> = Vec::new();
    push_str(&mut v, "pub type __DeviceConfig = ");
    push_str(&mut v, name);
    push_str(&mut v, ";\nimpl ::Oreos::hal::Config for ");
    push_str(&mut v, name);
    push_str(&mut v, " {}\n");
    string_from_chars(&v)
}

/// What `#[derive(State)]` expands to for the type `name`.
pub open spec fn state_expansion(name: Seq<char>) -> Seq<char> {
    "pub type __DeviceState = "@
        + name
        + ";\nimpl ::Oreos::hal::State for "@
        + name
        + " {}\n"@
}

/// Marks `name` as the device state: the `__DeviceState` alias and the `State` impl.
pub fn derive_state(name: &str) -> (r: String)
    ensures
        r@ == state_expansion(name@),
{
    let mut v: Vec<char> = Vec::new();
    push_str(&mut v, "pub type __DeviceState = ");
    push_str(&mut v, name);
    push_str(&mut v, ";\nimpl ::Oreos::hal::State for ");
    push_str(&mut v, name);
    push_str(&mut v, " {}\n");
    string_from_chars(&v)
}

/// What `#[derive(Command)]` expands to for the type `name`.
pub open spec fn command_expansion(name: Seq<char>) -> Seq<char> {
    "impl ::oreos::hal::Command for "@
        + name
        + " {}\n"@
}

/// Marks `name` as a device command.
pub fn derive_command(name: &str) -> (r: String)
    ensures
        r@ == command_expansion(name@),
{
    let mut v: Vec<char> = Vec::new();
    push_str(&mut v, "impl ::oreos::hal::Command for ");
    push_str(&mut v, name);
    push_str(&mut v, " {}\n");
    string_from_chars(&v)
}

/// What `#[derive(Middleware)]` expands to for the type `name`.
pub open spec fn middleware_expansion(name: Seq<char>) -> Seq<char> {
    "impl ::Oreos::hal::Middleware<::Oreos::hal::DeviceState<__DeviceState>, ::Oreos::hal::DeviceConfig<__DeviceConfig>, __DeviceCommand> for "@
        + name
        + " {\n    fn command(&mut self, cmd: __DeviceCommand, state: &mut ::Oreos::hal::DeviceState<__DeviceState>, config: &::Oreos::hal::DeviceConfig<__DeviceConfig>) {\n        self.callback_match(cmd, state, config);\n    }\n    fn process(&mut self, state: &mut ::Oreos::hal::DeviceState<__DeviceState>, config: &::Oreos::hal::DeviceConfig<__DeviceConfig>) {\n        let _ = (state, config);\n    }\n}\n"@
}

/// Implements `Middleware` for `name` over the device's state, configuration and command: commands go to the generated `callback_match`, processing does nothing.
pub fn derive_middleware(name: &str) -> (r: String)
    ensures
        r@ == middleware_expansion(name@),
{
    let mut v: Vec<char> = Vec::new();
    push_str(&mut v, "impl ::Oreos::hal::Middleware<::Oreos::hal::DeviceState<__DeviceState>, ::Oreos::hal::DeviceConfig<__DeviceConfig>, __DeviceCommand> for ");
    push_str(&mut v, name);
    push_str(&mut v, " {\n    fn command(&mut self, cmd: __DeviceCommand, state: &mut ::Oreos::hal::DeviceState<__DeviceState>, config: &::Oreos::hal::DeviceConfig<__DeviceConfig>) {\n        self.callback_match(cmd, state, config);\n    }\n    fn process(&mut self, state: &mut ::Oreos::hal::DeviceState<__DeviceState>, config: &::Oreos::hal::DeviceConfig<__DeviceConfig>) {\n        let _ = (state, config);\n    }\n}\n");
    string_from_chars(&v)
}

/// What `make_transport!(periph)` expands to.
pub open spec fn transport_expansion(periph: Seq<char>) -> Seq<char> {
    "{\n    static __TRANSPORT_BUFFER__: embassy_sync::channel::Channel<embassy_sync::blocking_mutex::raw::CriticalSectionRawMutex, PacketRequest, 10> = embassy_sync::channel::Channel::new();\n    let server = TransportServer::new("@
        + periph
        + ", &__TRANSPORT_BUFFER__);\n    let client = TransportClient::new(&__TRANSPORT_BUFFER__);\n    (client, server)\n}\n"@
}

/// A channel of ten requests in a static, a server that owns the peripheral and a client, returned as `(client, server)`.
pub fn make_transport(periph: &str) -> (r: String)
    ensures
        r@ == transport_expansion(periph@),
{
    let mut v: Vec<char> = Vec::new();
    push_str(&mut v, "{\n    static __TRANSPORT_BUFFER__: embassy_sync::channel::Channel<embassy_sync::blocking_mutex::raw::CriticalSectionRawMutex, PacketRequest, 10> = embassy_sync::channel::Channel::new();\n    let server = TransportServer::new(");
    push_str(&mut v, periph);
    push_str(&mut v, ", &__TRANSPORT_BUFFER__);\n    let client = TransportClient::new(&__TRANSPORT_BUFFER__);\n    (client, server)\n}\n");
    string_from_chars(&v)
}

/// The kernel's constructor and its `Kernel` impl, for a struct `name` whose
/// state, configuration and bus fields are `s`, `c`, `b` of types `st`,
/// `ct`, `bt`.
pub open spec fn kernel_expansion(name: Seq<char>, s: Seq<char>, st: Seq<char>, c: Seq<char>, ct: Seq<char>, b: Seq<char>, bt: Seq<char>) -> Seq<char> {
    "impl "@
        + name
        + " {\n    pub fn new("@
        + s
        + ": "@
        + st
        + ", "@
        + c
        + ": "@
        + ct
        + ", "@
        + b
        + ": "@
        + bt
        + ") -> Self {\n        Self { "@
        + s
        + ", "@
        + c
        + ", "@
        + b
        + " }\n    }\n}\nimpl ::Oreos::hal::Kernel for "@
        + name
        + " {\n    type State = "@
        + st
        + ";\n    type Config = "@
        + ct
        + ";\n    fn init(&mut self, _config: &Self::Config) -> Result<(), ::Oreos::hal::KernelError> {\n        Ok(())\n    }\n    fn feedback(&self) -> Self::State {\n        self."@
        + s
        + "\n    }\n    fn tick(&mut self) {\n        if self."@
        + b
        + ".estop().is_set() {\n            return;\n        }\n        self."@
        + b
        + ".update(&mut self."@
        + s
        + ");\n        self."@
        + b
        + ".write(&self."@
        + s
        + ");\n    }\n}\n"@
}

/// The last field that carries an attribute whose path is `p`.
pub open spec fn last_with_attr(fs: Seq<FieldView>, p: Seq<char>) -> Option<FieldView>
    decreases fs.len(),
{
    if fs.len() == 0 {
        None
    } else if has_attr(fs.last(), p) {
        Some(fs.last())
    } else {
        last_with_attr(fs.drop_last(), p)
    }
}

pub(crate) fn find_last_with_attr(fs: &Vec<FieldModel>, p: &str) -> (r: Option<usize>)
    ensures
        match r {
            Some(i) => i < fs@.len() && last_with_attr(crate::codegen::model::fields_view(fs@), p@)
                == Some(fs@[i as int]@),
            None => last_with_attr(crate::codegen::model::fields_view(fs@), p@) is None,
        },
{
    let ghost fv = crate::codegen::model::fields_view(fs@);
    let mut found: Option<usize> = None;
    let mut i: usize = 0;
    while i < fs.len()
        invariant
            i <= fs@.len(),
            fv == crate::codegen::model::fields_view(fs@),
            match found {
                Some(k) => k < i && last_with_attr(fv.take(i as int), p@) == Some(fs@[k as int]@),
                None => last_with_attr(fv.take(i as int), p@) is None,
            },
        decreases fs@.len() - i,
    {
        assert(fv.take(i + 1).drop_last() =~= fv.take(i as int));
        assert(fv.take(i + 1).last() == fs@[i as int]@);
        if field_has_attr(&fs[i], p) {
            found = Some(i);
        }
        i = i + 1;
    }
    assert(fv.take(fs@.len() as int) =~= fv);
    found
}

/// What `#[derive(Kernel)]` gives for the item: an error unless it is a
/// struct with fields marked `#[state]`, `#[config]` and `#[bus]` (the last
/// of each counts), else the kernel expansion.
pub open spec fn spec_impl_kernel(item: crate::codegen::model::ItemView) -> Result<Seq<char>, Seq<char>> {
    match item.data {
        DataView::Struct(fs) => match (
            last_with_attr(fs, "state"@),
            last_with_attr(fs, "config"@),
            last_with_attr(fs, "bus"@),
        ) {
            (None, _, _) => Err("missing #[state] attribute"@),
            (Some(_), None, _) => Err("missing #[config] attribute"@),
            (Some(_), Some(_), None) => Err("missing #[bus] attribute"@),
            (Some(s), Some(c), Some(b)) => Ok(
                kernel_expansion(item.name, s.name, s.ty, c.name, c.ty, b.name, b.ty),
            ),
        },
        _ => Err("cannot derive a struct"@),
    }
}

pub open spec fn result_view(r: Result<String, MacroError>) -> Result<Seq<char>, Seq<char>> {
    match r {
        Ok(s) => Ok(s@),
        Err(e) => Err(e.message@),
    }
}

/// The kernel derive: a constructor taking the state, configuration and bus,
/// and a `Kernel` impl whose tick does nothing while the emergency stop is
/// raised and otherwise updates the state from the bus and writes it back.
pub fn impl_kernel(item: &ItemModel) -> (r: Result<String, MacroError>)
    ensures
        result_view(r) == spec_impl_kernel(item@),
{
    let fs = match &item.data {
        DataModel::Struct(fs) => fs,
        _ => return Err(error("cannot derive a struct")),
    };
    let s = match find_last_with_attr(fs, "state") {
        Some(i) => &fs[i],
        None => return Err(error("missing #[state] attribute")),
    };
    let c = match find_last_with_attr(fs, "config") {
        Some(i) => &fs[i],
        None => return Err(error("missing #[config] attribute")),
    };
    let b = match find_last_with_attr(fs, "bus") {
        Some(i) => &fs[i],
        None => return Err(error("missing #[bus] attribute")),
    };
    let name = &item.name;
    let st = &s.ty;
    let ct = &c.ty;
    let bt = &b.ty;
    let c_ = &c.name;
    let b_ = &b.name;
    let s_ = &s.name;
    let mut v: Vec<char> = Vec::new();
    push_str(&mut v, "impl ");
    push_str(&mut v, name.as_str());
    push_str(&mut v, " {\n    pub fn new(");
    push_str(&mut v, s_.as_str());
    push_str(&mut v, ": ");
    push_str(&mut v, st.as_str());
    push_str(&mut v, ", ");
    push_str(&mut v, c_.as_str());
    push_str(&mut v, ": ");
    push_str(&mut v, ct.as_str());
    push_str(&mut v, ", ");
    push_str(&mut v, b_.as_str());
    push_str(&mut v, ": ");
    push_str(&mut v, bt.as_str());
    push_str(&mut v, ") -> Self {\n        Self { ");
    push_str(&mut v, s_.as_str());
    push_str(&mut v, ", ");
    push_str(&mut v, c_.as_str());
    push_str(&mut v, ", ");
    push_str(&mut v, b_.as_str());
    push_str(&mut v, " }\n    }\n}\nimpl ::Oreos::hal::Kernel for ");
    push_str(&mut v, name.as_str());
    push_str(&mut v, " {\n    type State = ");
    push_str(&mut v, st.as_str());
    push_str(&mut v, ";\n    type Config = ");
    push_str(&mut v, ct.as_str());
    push_str(&mut v, ";\n    fn init(&mut self, _config: &Self::Config) -> Result<(), ::Oreos::hal::KernelError> {\n        Ok(())\n    }\n    fn feedback(&self) -> Self::State {\n        self.");
    push_str(&mut v, s_.as_str());
    push_str(&mut v, "\n    }\n    fn tick(&mut self) {\n        if self.");
    push_str(&mut v, b_.as_str());
    push_str(&mut v, ".estop().is_set() {\n            return;\n        }\n        self.");
    push_str(&mut v, b_.as_str());
    push_str(&mut v, ".update(&mut self.");
    push_str(&mut v, s_.as_str());
    push_str(&mut v, ");\n        self.");
    push_str(&mut v, b_.as_str());
    push_str(&mut v, ".write(&self.");
    push_str(&mut v, s_.as_str());
    push_str(&mut v, ");\n    }\n}\n");
    Ok(string_from_chars(&v))
}

} // verus!
