//! Source templates for the files the tool generates. Each template is Rust
//! source, parsed with `syn` and printed with `prettyplease`, then spaced.

use vstd::prelude::*;
use crate::casing::{
    snake_with_suffix, spec_snake_with_suffix, spec_to_pascal_case, spec_to_snake_case,
    to_pascal_case, to_snake_case,
};
use crate::cli::layout::{insert_blank_lines_between_items, spaced};
use crate::cli::scanner::opt_string_view;
use crate::text::{chars_of, push_str, string_from_chars};

verus! {

/// What `prettyplease::unparse` prints of the file that `syn::parse_file`
/// reads from the source; none where it does not parse.
pub uninterp spec fn pretty_printed(src: Seq<char>) -> Option<Seq<char>>;

/// A character that can stand in an ASCII identifier.
pub open spec fn is_ident_char(c: char) -> bool {
    ('a' <= c && c <= 'z') || ('A' <= c && c <= 'Z') || ('0' <= c && c <= '9') || c == '_'
}

/// Text made only of ASCII identifier characters: spliced into a template it
/// adds no punctuation, so it cannot change the template's syntax.
pub open spec fn ident_text(s: Seq<char>) -> bool {
    forall|i: int| 0 <= i < s.len() ==> #[trigger] is_ident_char(s[i])
}

/// The PascalCase form of the name is identifier text.
pub open spec fn pascal_fits(n: Seq<char>) -> bool {
    ident_text(spec_to_pascal_case(n))
}

/// The snake_case form of the name is identifier text.
pub open spec fn snake_fits(n: Seq<char>) -> bool {
    ident_text(spec_to_snake_case(n))
}

/// A component's file stem (snake_case with the suffix), field name
/// (snake_case) and type (PascalCase) are identifier text.
pub open spec fn component_fits(n: Seq<char>, suffix: Seq<char>) -> bool {
    &&& ident_text(spec_snake_with_suffix(n, suffix))
    &&& snake_fits(n)
    &&& pascal_fits(n)
}

pub open spec fn components_fit(ns: Seq<Seq<char>>, suffix: Seq<char>) -> bool {
    forall|i: int| 0 <= i < ns.len() ==> #[trigger] component_fits(ns[i], suffix)
}

/// The forms of the names that the kernel template splices in are
/// identifier text.
pub open spec fn kernel_names_fit(
    name: Seq<char>,
    state: Seq<char>,
    config: Seq<char>,
    bus: Seq<char>,
    device: Seq<char>,
) -> bool {
    pascal_fits(name) && pascal_fits(state) && pascal_fits(config) && pascal_fits(bus)
        && snake_fits(device)
}

/// The forms of the names that the middleware template splices in are
/// identifier text.
pub open spec fn middleware_names_fit(name: Seq<char>, device: Seq<char>) -> bool {
    pascal_fits(name) && snake_fits(device)
}

/// The forms of the names that the device template splices in are
/// identifier text.
pub open spec fn device_names_fit(
    name: Seq<char>,
    state: Seq<char>,
    kernel: Seq<char>,
    config: Seq<char>,
    middlewares: Seq<Seq<char>>,
    backends: Seq<Seq<char>>,
) -> bool {
    &&& snake_fits(name)
    &&& pascal_fits(name)
    &&& pascal_fits(state)
    &&& pascal_fits(kernel)
    &&& pascal_fits(config)
    &&& components_fit(middlewares, "middleware"@)
    &&& components_fit(backends, "backend"@)
}

/// A source this module prints: one of its templates, where every name it
/// splices in is, in the form it takes there, made of identifier characters.
pub open spec fn template_source(src: Seq<char>) -> bool {
    ||| exists|a: Seq<char>, b: Seq<char>, c: Seq<char>, d: Seq<char>, e: Seq<char>|
        kernel_names_fit(a, b, c, d, e) && src == #[trigger] kernel_source(a, b, c, d, e)
    ||| exists|n: Seq<char>, d: Seq<char>|
        middleware_names_fit(n, d) && src == #[trigger] middleware_source(n, d)
    ||| exists|n: Seq<char>| pascal_fits(n) && src == #[trigger] backend_source(n)
    ||| src == runtime_source()
    ||| exists|
        n: Seq<char>,
        st: Seq<char>,
        k: Seq<char>,
        cf: Seq<char>,
        ms: Seq<Seq<char>>,
        bs: Seq<Seq<char>>,
    |
        device_names_fit(n, st, k, cf, ms, bs) && src == #[trigger] device_source(
            n,
            st,
            k,
            cf,
            ms,
            bs,
        )
}

/// Parses the source with `syn::parse_file` and prints it with
/// `prettyplease::unparse`. Both depend on the source alone; the contract
/// names the result. prettyplease stops (`unimplemented!`) on an item that
/// syn keeps as raw tokens, such as a function without a body; the
/// templates' fixed text holds none, and names spliced in as identifier
/// characters cannot make one, so the call is made only on the templates'
/// sources.
#[verifier::external_body]
fn pretty_print(src: &str) -> (r: Option<String>)
    requires
        template_source(src@),
    ensures
        opt_string_view(r) == pretty_printed(src@),
{
    match syn::parse_file(src) {
        Ok(file) => Some(prettyplease::unparse(&file)),
        Err(_) => None,
    }
}

/// Whether the text is made only of ASCII identifier characters.
pub fn is_ident_str(s: &str) -> (b: bool)
    ensures
        b == ident_text(s@),
{
    let cs = chars_of(s);
    let mut i: usize = 0;
    while i < cs.len()
        invariant
            cs@ == s@,
            i <= cs@.len(),
            forall|j: int| 0 <= j < i ==> #[trigger] is_ident_char(cs@[j]),
        decreases cs@.len() - i,
    {
        let c = cs[i];
        if !(('a' <= c && c <= 'z') || ('A' <= c && c <= 'Z') || ('0' <= c && c <= '9') || c == '_') {
            assert(!is_ident_char(s@[i as int]));
            return false;
        }
        i = i + 1;
    }
    true
}

/// Whether the PascalCase form of the name is identifier text.
pub fn pascal_name_fits(n: &str) -> (b: bool)
    ensures
        b == pascal_fits(n@),
{
    is_ident_str(to_pascal_case(n).as_str())
}

/// Whether the snake_case form of the name is identifier text.
pub fn snake_name_fits(n: &str) -> (b: bool)
    ensures
        b == snake_fits(n@),
{
    is_ident_str(to_snake_case(n).as_str())
}

/// Whether a component's file stem, field name and type are identifier text.
pub fn component_name_fits(n: &str, suffix: &str) -> (b: bool)
    ensures
        b == component_fits(n@, suffix@),
{
    is_ident_str(snake_with_suffix(n, suffix).as_str()) && snake_name_fits(n) && pascal_name_fits(n)
}

/// The printed and spaced source; none where it does not parse.
pub open spec fn formatted(src: Seq<char>) -> Option<Seq<char>> {
    match pretty_printed(src) {
        Some(t) => Some(spaced(t)),
        None => None,
    }
}

/// Prints the source and puts blank lines between its items.
fn format_code(src: &str) -> (r: Option<String>)
    requires
        template_source(src@),
    ensures
        opt_string_view(r) == formatted(src@),
{
    match pretty_print(src) {
        Some(t) => Some(insert_blank_lines_between_items(t.as_str())),
        None => None,
    }
}

/// The source the kernel template is printed from.
pub open spec fn kernel_source(
    name: Seq<char>,
    state: Seq<char>,
    config: Seq<char>,
    bus: Seq<char>,
    device: Seq<char>,
) -> Seq<char> {
    let n = spec_to_pascal_case(name);
    let st = spec_to_pascal_case(state);
    let cf = spec_to_pascal_case(config);
    let bu = spec_to_pascal_case(bus);
    let dm = spec_to_snake_case(device);
    "use crate::oreos::prelude::*;\nuse crate::"@
        + dm
        + "::device::{"@
        + st
        + ", "@
        + cf
        + "};\n#[derive(GenericBus)]\npub struct "@
        + bu
        + "Bus {\n    #[state]\n    pub state: "@
        + st
        + ",\n    pub estop: EstopFlag,\n}\n#[derive(Kernel)]\npub struct "@
        + n
        + " {\n    #[state]\n    pub state: "@
        + st
        + ",\n    #[config]\n    pub config: "@
        + cf
        + ",\n    #[bus]\n    pub bus: &'static "@
        + bu
        + "Bus\n}\n"@
}

/// The kernel of a device: its bus (`<Bus>Bus`, holding the state and the
/// emergency stop) and the kernel struct holding state, configuration and a
/// reference to the bus. Names are converted to PascalCase, the device's
/// module name to snake_case. `None` if the result does not parse as Rust.
pub fn kernel_template(name: &str, state: &str, config: &str, bus: &str, device: &str) -> (r: Option<String>)
    requires
        kernel_names_fit(name@, state@, config@, bus@, device@),
    ensures
        opt_string_view(r) == formatted(kernel_source(name@, state@, config@, bus@, device@)),
{
    let n = to_pascal_case(name);
    let st = to_pascal_case(state);
    let cf = to_pascal_case(config);
    let bu = to_pascal_case(bus);
    let dm = to_snake_case(device);
    let mut v: Vec<char> = Vec::new();
    push_str(&mut v, "use crate::oreos::prelude::*;\nuse crate::");
    push_str(&mut v, dm.as_str());
    push_str(&mut v, "::device::{");
    push_str(&mut v, st.as_str());
    push_str(&mut v, ", ");
    push_str(&mut v, cf.as_str());
    push_str(&mut v, "};\n#[derive(GenericBus)]\npub struct ");
    push_str(&mut v, bu.as_str());
    push_str(&mut v, "Bus {\n    #[state]\n    pub state: ");
    push_str(&mut v, st.as_str());
    push_str(&mut v, ",\n    pub estop: EstopFlag,\n}\n#[derive(Kernel)]\npub struct ");
    push_str(&mut v, n.as_str());
    push_str(&mut v, " {\n    #[state]\n    pub state: ");
    push_str(&mut v, st.as_str());
    push_str(&mut v, ",\n    #[config]\n    pub config: ");
    push_str(&mut v, cf.as_str());
    push_str(&mut v, ",\n    #[bus]\n    pub bus: &'static ");
    push_str(&mut v, bu.as_str());
    push_str(&mut v, "Bus\n}\n");
    let src = string_from_chars(&v);
    format_code(src.as_str())
}

/// The source the middleware template is printed from.
pub open spec fn middleware_source(name: Seq<char>, device: Seq<char>) -> Seq<char> {
    let n = spec_to_pascal_case(name);
    let dm = spec_to_snake_case(device);
    "use crate::oreos::prelude::*;\nuse crate::"@
        + dm
        + "::device::{__DeviceCommand, __DeviceState, __DeviceConfig};\n#[derive(Middleware)]\npub struct "@
        + n
        + " {\n}\n#[middleware]\nimpl "@
        + n
        + " {\n}\n"@
}

/// A middleware of a device: the struct and an empty `#[middleware]` impl,
/// importing the device's generated command, state and configuration types.
/// `None` if the result does not parse as Rust.
pub fn middleware_template(name: &str, device: &str) -> (r: Option<String>)
    requires
        middleware_names_fit(name@, device@),
    ensures
        opt_string_view(r) == formatted(middleware_source(name@, device@)),
{
    let n = to_pascal_case(name);
    let dm = to_snake_case(device);
    let mut v: Vec<char> = Vec::new();
    push_str(&mut v, "use crate::oreos::prelude::*;\nuse crate::");
    push_str(&mut v, dm.as_str());
    push_str(&mut v, "::device::{__DeviceCommand, __DeviceState, __DeviceConfig};\n#[derive(Middleware)]\npub struct ");
    push_str(&mut v, n.as_str());
    push_str(&mut v, " {\n}\n#[middleware]\nimpl ");
    push_str(&mut v, n.as_str());
    push_str(&mut v, " {\n}\n");
    let src = string_from_chars(&v);
    format_code(src.as_str())
}

/// The source the backend template is printed from.
pub open spec fn backend_source(name: Seq<char>) -> Seq<char> {
    let n = spec_to_pascal_case(name);
    "use crate::oreos::prelude::*;\npub struct "@
        + n
        + "State {\n}\npub struct "@
        + n
        + "Condition;\nimpl Condition for "@
        + n
        + "Condition {\n    fn classify(&self, _ctx: &DeviceState<impl StateTrait>) -> Fault {\n        todo!(\"classify backend condition\")\n    }\n}\npub struct "@
        + n
        + " {\n}\nimpl Backend for "@
        + n
        + " {\n    type Output = ();\n    type Condition = "@
        + n
        + "Condition;\n    type Config = ();\n    type Error = ();\n    async fn init(&mut self, _config: Self::Config) -> Result<(), Self::Error> {\n        todo!(\"Initialize backend\")\n    }\n    async fn tick(&mut self) -> Self::Output {\n        todo!(\"Backend tick\")\n    }\n    async fn config(&mut self, _config: Self::Config) -> Result<(), Self::Error> {\n        todo!(\"Backend config\")\n    }\n}\n"@
}

/// A backend: its state struct, its condition with a `Condition` impl, and
/// the backend struct with a `Backend` impl whose methods are left to write.
/// `None` if the result does not parse as Rust.
pub fn backend_template(name: &str) -> (r: Option<String>)
    requires
        pascal_fits(name@),
    ensures
        opt_string_view(r) == formatted(backend_source(name@)),
{
    let n = to_pascal_case(name);
    let mut v: Vec<char> = Vec::new();
    push_str(&mut v, "use crate::oreos::prelude::*;\npub struct ");
    push_str(&mut v, n.as_str());
    push_str(&mut v, "State {\n}\npub struct ");
    push_str(&mut v, n.as_str());
    push_str(&mut v, "Condition;\nimpl Condition for ");
    push_str(&mut v, n.as_str());
    push_str(&mut v, "Condition {\n    fn classify(&self, _ctx: &DeviceState<impl StateTrait>) -> Fault {\n        todo!(\"classify backend condition\")\n    }\n}\npub struct ");
    push_str(&mut v, n.as_str());
    push_str(&mut v, " {\n}\nimpl Backend for ");
    push_str(&mut v, n.as_str());
    push_str(&mut v, " {\n    type Output = ();\n    type Condition = ");
    push_str(&mut v, n.as_str());
    push_str(&mut v, "Condition;\n    type Config = ();\n    type Error = ();\n    async fn init(&mut self, _config: Self::Config) -> Result<(), Self::Error> {\n        todo!(\"Initialize backend\")\n    }\n    async fn tick(&mut self) -> Self::Output {\n        todo!(\"Backend tick\")\n    }\n    async fn config(&mut self, _config: Self::Config) -> Result<(), Self::Error> {\n        todo!(\"Backend config\")\n    }\n}\n");
    let src = string_from_chars(&v);
    format_code(src.as_str())
}

/// The source the runtime template is printed from.
pub open spec fn runtime_source() -> Seq<char> {
    "#![no_std]\n#![no_main]\nuse oreos_runtime::prelude::*;\noreos::install_defmt_timestamp!();\n#[devices]\nstruct Dev {\n    led: Output<'static>,\n}\n#[app(hal_crate = your_embassy_crate)]\nmod your_app {\n    #[init(config = Config::default())]\n    async fn setup(p: Peripherals, _s: Spawner) -> Devices {\n        let led = Output::new(p.PA3, Level::Low, Speed::Low);\n        Devices {\n            led\n        }\n    }\n    #[loop_(rate = 100u64)]\n    async fn loop_task(ctx: Context) {\n        ctx.led.toggle();\n    }\n}\n"@
}

/// The `main.rs` of a new runtime: a `no_std` application with one LED
/// device, an init task and a loop task.
pub fn create_base_runtime() -> (r: Option<String>)
    ensures
        opt_string_view(r) == formatted(runtime_source()),
{
    let mut v: Vec<char> = Vec::new();
    push_str(&mut v, "#![no_std]\n#![no_main]\nuse oreos_runtime::prelude::*;\noreos::install_defmt_timestamp!();\n#[devices]\nstruct Dev {\n    led: Output<'static>,\n}\n#[app(hal_crate = your_embassy_crate)]\nmod your_app {\n    #[init(config = Config::default())]\n    async fn setup(p: Peripherals, _s: Spawner) -> Devices {\n        let led = Output::new(p.PA3, Level::Low, Speed::Low);\n        Devices {\n            led\n        }\n    }\n    #[loop_(rate = 100u64)]\n    async fn loop_task(ctx: Context) {\n        ctx.led.toggle();\n    }\n}\n");
    let src = string_from_chars(&v);
    format_code(src.as_str())
}


pub open spec fn strs_view(v: Seq<&str>) -> Seq<Seq<char>> {
    v.map_values(|s: &str| s@)
}

/// One import per component: `use crate::<module>::<file>::<Type>;`, where
/// the file is the component's snake_case name with the suffix.
pub open spec fn imports_text(names: Seq<Seq<char>>, module: Seq<char>, suffix: Seq<char>) -> Seq<char>
    decreases names.len(),
{
    if names.len() == 0 {
        Seq::empty()
    } else {
        imports_text(names.drop_last(), module, suffix) + "use crate::"@ + module + "::"@
            + spec_snake_with_suffix(names.last(), suffix) + "::"@ + spec_to_pascal_case(names.last())
            + ";\n"@
    }
}

/// A field of the device for a component: the attribute, the snake_case
/// name and the PascalCase type.
pub open spec fn field_decl(attr: Seq<char>, name: Seq<char>) -> Seq<char> {
    attr + spec_to_snake_case(name) + ": "@ + spec_to_pascal_case(name)
}

pub open spec fn field_decls(names: Seq<Seq<char>>, attr: Seq<char>) -> Seq<Seq<char>> {
    names.map_values(|m: Seq<char>| field_decl(attr, m))
}

/// The parts with the separator between each two.
pub open spec fn join(parts: Seq<Seq<char>>, sep: Seq<char>) -> Seq<char>
    decreases parts.len(),
{
    if parts.len() == 0 {
        Seq::empty()
    } else if parts.len() == 1 {
        parts[0]
    } else {
        join(parts.drop_last(), sep) + sep + parts.last()
    }
}

/// The source the device template is printed from.
pub open spec fn device_source(
    name: Seq<char>,
    state: Seq<char>,
    kernel: Seq<char>,
    config: Seq<char>,
    middlewares: Seq<Seq<char>>,
    backends: Seq<Seq<char>>,
) -> Seq<char> {
    let module = spec_to_snake_case(name);
    let n = spec_to_pascal_case(name);
    let st = spec_to_pascal_case(state);
    let k = spec_to_pascal_case(kernel);
    let cf = spec_to_pascal_case(config);
    "use crate::oreos::prelude::*;\nuse crate::"@ + module + "::kernel::"@ + k + ";\n"@
        + imports_text(middlewares, module, "middleware"@)
        + imports_text(backends, module, "backend"@)
        + "#[derive(State, Clone, Copy)]\npub struct "@ + st
        + " {\n}\n#[derive(Config)]\npub struct "@ + cf
        + " {\n}\n#[derive(Command)]\npub enum "@ + n
        + "Command {\n}\n#[create(Device)]\npub struct "@ + n
        + " {\n    #[kernel] kernel: "@ + k
        + ",\n    #[state] state: DeviceState<"@ + st
        + ">,\n    #[config] config: DeviceConfig<"@ + cf + ">,\n"@
        + join(
            field_decls(middlewares, "#[middleware] "@) + field_decls(backends, "#[backend] "@),
            ",\n"@,
        ) + "\n}\n"@
}

fn push_imports(v: &mut Vec<char>, names: &[&str], module: &String, suffix: &str)
    ensures
        final(v)@ == old(v)@ + imports_text(strs_view(names@), module@, suffix@),
{
    let ghost ns = strs_view(names@);
    let mut i: usize = 0;
    while i < names.len()
        invariant
            i <= names@.len(),
            ns == strs_view(names@),
            v@ == old(v)@ + imports_text(ns.take(i as int), module@, suffix@),
        decreases names@.len() - i,
    {
        let name: &str = names[i];
        assert(ns[i as int] == name@);
        assert(ns.take(i + 1).drop_last() =~= ns.take(i as int));
        let file = snake_with_suffix(name, suffix);
        let ty = to_pascal_case(name);
        push_str(v, "use crate::");
        push_str(v, module.as_str());
        push_str(v, "::");
        push_str(v, file.as_str());
        push_str(v, "::");
        push_str(v, ty.as_str());
        push_str(v, ";\n");
        i = i + 1;
        assert(v@ =~= old(v)@ + imports_text(ns.take(i as int), module@, suffix@));
    }
    assert(ns.take(names@.len() as int) =~= ns);
}

fn push_field_decls(fields: &mut Vec<Vec<char>>, names: &[&str], attr: &str)
    ensures
        final(fields)@.len() == old(fields)@.len() + names@.len(),
        forall|j: int| 0 <= j < old(fields)@.len() ==> (#[trigger] final(fields)@[j])@ == old(fields)@[j]@,
        forall|j: int|
            0 <= j < names@.len() ==> (#[trigger] final(fields)@[old(fields)@.len() + j])@ == field_decl(
                attr@,
                names@[j]@,
            ),
{
    let mut i: usize = 0;
    while i < names.len()
        invariant
            i <= names@.len(),
            fields@.len() == old(fields)@.len() + i,
            forall|j: int| 0 <= j < old(fields)@.len() ==> (#[trigger] fields@[j])@ == old(fields)@[j]@,
            forall|j: int|
                0 <= j < i ==> (#[trigger] fields@[old(fields)@.len() + j])@ == field_decl(
                    attr@,
                    names@[j]@,
                ),
        decreases names@.len() - i,
    {
        let name: &str = names[i];
        let field = to_snake_case(name);
        let ty = to_pascal_case(name);
        let mut f: Vec<char> = Vec::new();
        push_str(&mut f, attr);
        push_str(&mut f, field.as_str());
        push_str(&mut f, ": ");
        push_str(&mut f, ty.as_str());
        fields.push(f);
        i = i + 1;
    }
}

fn push_joined(v: &mut Vec<char>, parts: &Vec<Vec<char>>, sep: &str)
    ensures
        final(v)@ == old(v)@ + join(parts@.map_values(|p: Vec<char>| p@), sep@),
{
    let ghost ps = parts@.map_values(|p: Vec<char>| p@);
    let mut i: usize = 0;
    while i < parts.len()
        invariant
            i <= parts@.len(),
            ps == parts@.map_values(|p: Vec<char>| p@),
            v@ == old(v)@ + join(ps.take(i as int), sep@),
        decreases parts@.len() - i,
    {
        assert(ps.take(i + 1).drop_last() =~= ps.take(i as int));
        assert(ps[i as int] == parts@[i as int]@);
        if i > 0 {
            push_str(v, sep);
        } else {
            assert(ps.take(1) =~= seq![ps[0]]);
        }
        let mut copy = parts[i].clone();
        v.append(&mut copy);
        i = i + 1;
        assert(v@ =~= old(v)@ + join(ps.take(i as int), sep@));
    }
    assert(ps.take(parts@.len() as int) =~= ps);
}

/// The device: imports of its kernel and of each middleware and backend (from
/// the file `ordl generate` writes it to), its state, configuration and
/// command types, and the `#[create(Device)]` struct with a field for the
/// kernel, the state, the configuration, then each middleware and backend.
/// `None` if the result does not parse as Rust.
pub fn device_template(
    name: &str,
    state: &str,
    kernel: &str,
    config: &str,
    middlewares: &[&str],
    backends: &[&str],
) -> (r: Option<String>)
    requires
        device_names_fit(
            name@,
            state@,
            kernel@,
            config@,
            strs_view(middlewares@),
            strs_view(backends@),
        ),
    ensures
        opt_string_view(r) == formatted(
            device_source(
                name@,
                state@,
                kernel@,
                config@,
                strs_view(middlewares@),
                strs_view(backends@),
            ),
        ),
{
    let module = to_snake_case(name);
    let n = to_pascal_case(name);
    let st = to_pascal_case(state);
    let k = to_pascal_case(kernel);
    let cf = to_pascal_case(config);
    let mut v: Vec<char> = Vec::new();
    push_str(&mut v, "use crate::oreos::prelude::*;\nuse crate::");
    push_str(&mut v, module.as_str());
    push_str(&mut v, "::kernel::");
    push_str(&mut v, k.as_str());
    push_str(&mut v, ";\n");
    push_imports(&mut v, middlewares, &module, "middleware");
    push_imports(&mut v, backends, &module, "backend");
    push_str(&mut v, "#[derive(State, Clone, Copy)]\npub struct ");
    push_str(&mut v, st.as_str());
    push_str(&mut v, " {\n}\n#[derive(Config)]\npub struct ");
    push_str(&mut v, cf.as_str());
    push_str(&mut v, " {\n}\n#[derive(Command)]\npub enum ");
    push_str(&mut v, n.as_str());
    push_str(&mut v, "Command {\n}\n#[create(Device)]\npub struct ");
    push_str(&mut v, n.as_str());
    push_str(&mut v, " {\n    #[kernel] kernel: ");
    push_str(&mut v, k.as_str());
    push_str(&mut v, ",\n    #[state] state: DeviceState<");
    push_str(&mut v, st.as_str());
    push_str(&mut v, ">,\n    #[config] config: DeviceConfig<");
    push_str(&mut v, cf.as_str());
    push_str(&mut v, ">,\n");
    let mut fields: Vec<Vec<char>> = Vec::new();
    push_field_decls(&mut fields, middlewares, "#[middleware] ");
    let ghost f1 = fields@;
    push_field_decls(&mut fields, backends, "#[backend] ");
    let ghost ms = strs_view(middlewares@);
    let ghost bs = strs_view(backends@);
    let ghost fv = fields@.map_values(|p: Vec<char>| p@);
    let ghost want = field_decls(ms, "#[middleware] "@) + field_decls(bs, "#[backend] "@);
    assert(fv.len() == want.len());
    assert forall|j: int| 0 <= j < fv.len() implies fv[j] == want[j] by {
        assert(fv[j] == fields@[j]@);
        if j < ms.len() {
            assert(fields@[j]@ == f1[j]@);
            assert(f1[0 + j]@ == field_decl("#[middleware] "@, middlewares@[j]@));
            assert(want[j] == field_decl("#[middleware] "@, middlewares@[j]@));
        } else {
            let jj = j - ms.len();
            assert(fields@[ms.len() + jj]@ == field_decl("#[backend] "@, backends@[jj]@));
            assert(want[j] == field_decl("#[backend] "@, backends@[jj]@));
        }
    }
    assert(fields@.map_values(|p: Vec<char>| p@) =~= field_decls(ms, "#[middleware] "@)
        + field_decls(bs, "#[backend] "@));
    push_joined(&mut v, &fields, ",\n");
    push_str(&mut v, "\n}\n");
    let src = string_from_chars(&v);
    format_code(src.as_str())
}
} // verus!
