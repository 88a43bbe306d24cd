use oreos::codegen::bus::impl_bus;
use oreos::codegen::derive::{
    derive_command, derive_config, derive_middleware, derive_state, impl_kernel, make_transport,
};
use oreos::codegen::device::create_device;
use oreos::codegen::devices::{devices, DeviceItemModel};
use oreos::codegen::model::{AttrModel, DataModel, FieldModel, ItemModel, Tok};
use oreos::codegen::routes::parse_routes;

fn attr(path: &str) -> AttrModel {
    AttrModel { path: path.to_string(), list_tokens: None, text: format!("#[{}]", path) }
}

fn field(name: &str, ty: &str, attrs: Vec<AttrModel>) -> FieldModel {
    FieldModel { name: name.to_string(), ty: ty.to_string(), attrs, vis: String::new() }
}

fn item(name: &str, fields: Vec<FieldModel>) -> ItemModel {
    ItemModel {
        name: name.to_string(),
        data: DataModel::Struct(fields),
        attrs: String::new(),
        vis: String::new(),
        generics: String::new(),
        where_clause: String::new(),
        impl_generics: String::new(),
        type_generics: String::new(),
    }
}

fn ident(s: &str) -> Tok {
    Tok::Ident(s.to_string())
}

fn colons() -> Vec<Tok> {
    vec![Tok::Punct(':', true), Tok::Punct(':', false)]
}

/// `a::b <= c::d` (or `=>`), as tokens.
fn route(a: &str, b: &str, into: bool, c: &str, d: &str) -> Vec<Tok> {
    let mut t = vec![ident(a)];
    t.extend(colons());
    t.push(ident(b));
    if into {
        t.push(Tok::Punct('<', true));
        t.push(Tok::Punct('=', false));
    } else {
        t.push(Tok::Punct('=', true));
        t.push(Tok::Punct('>', false));
    }
    t.push(ident(c));
    t.extend(colons());
    t.push(ident(d));
    t
}

#[test]
fn simple_derives_name_the_type() {
    assert_eq!(derive_state("MyState"), "pub type __DeviceState = MyState;\nimpl ::Oreos::hal::State for MyState {}\n");
    assert_eq!(derive_config("MyConfig"), "pub type __DeviceConfig = MyConfig;\nimpl ::Oreos::hal::Config for MyConfig {}\n");
    assert_eq!(derive_command("Cmd"), "impl ::oreos::hal::Command for Cmd {}\n");
    let m = derive_middleware("Log");
    assert!(m.starts_with("impl ::Oreos::hal::Middleware<::Oreos::hal::DeviceState<__DeviceState>, ::Oreos::hal::DeviceConfig<__DeviceConfig>, __DeviceCommand> for Log {"));
    assert!(m.contains("self.callback_match(cmd, state, config);"));
    let t = make_transport("uart");
    assert!(t.contains("TransportServer::new(uart, &__TRANSPORT_BUFFER__);"));
    assert!(t.contains("(client, server)"));
}

#[test]
fn kernel_derive_uses_marked_fields() {
    let k = item(
        "MyKernel",
        vec![
            field("state", "MyState", vec![attr("state")]),
            field("config", "MyConfig", vec![attr("config")]),
            field("bus", "& 'static MyBus", vec![attr("bus")]),
        ],
    );
    let out = impl_kernel(&k).ok().unwrap();
    assert!(out.starts_with("impl MyKernel {\n    pub fn new(state: MyState, config: MyConfig, bus: & 'static MyBus) -> Self {\n        Self { state, config, bus }\n    }\n}\n"));
    assert!(out.contains("    type State = MyState;\n    type Config = MyConfig;\n"));
    assert!(out.contains("        if self.bus.estop().is_set() {\n            return;\n        }\n        self.bus.update(&mut self.state);\n        self.bus.write(&self.state);\n"));
}

#[test]
fn kernel_derive_reports_missing_fields_in_order() {
    let none = item("K", vec![field("x", "u8", vec![])]);
    assert_eq!(impl_kernel(&none).err().unwrap().message, "missing #[state] attribute");
    let no_bus = item("K", vec![field("s", "S", vec![attr("state")]), field("c", "C", vec![attr("config")])]);
    assert_eq!(impl_kernel(&no_bus).err().unwrap().message, "missing #[bus] attribute");
    let mut e = item("K", vec![]);
    e.data = DataModel::Enum;
    assert_eq!(impl_kernel(&e).err().unwrap().message, "cannot derive a struct");
}

#[test]
fn routes_parse_both_directions() {
    let mut t = route("MyState", "target", false, "StepperData", "vel");
    t.push(Tok::Punct(',', false));
    t.extend(route("MyState", "pos", true, "StepperData", "position"));
    t.push(Tok::Punct(',', false));
    let rs = parse_routes(&t).ok().unwrap();
    assert_eq!(rs.len(), 2);
    assert!(!rs[0].into_state && rs[0].state_field == "target" && rs[0].lane_field == "vel");
    assert!(rs[1].into_state && rs[1].state_field == "pos" && rs[1].lane_field == "position");
    assert_eq!(parse_routes(&vec![]).ok().unwrap().len(), 0);
}

#[test]
fn routes_reject_bad_input() {
    let bad_arrow = vec![ident("a"), Tok::Punct('-', true), Tok::Punct('>', false), ident("b")];
    assert_eq!(parse_routes(&bad_arrow).err().unwrap(), "expected <= or =>");
    let mut two = route("a", "b", true, "c", "d");
    two.extend(route("e", "f", true, "g", "h"));
    assert_eq!(parse_routes(&two).err().unwrap(), "expected `,`");
    let dangling = vec![ident("a"), Tok::Punct(':', true), Tok::Punct(':', false)];
    assert_eq!(parse_routes(&dangling).err().unwrap(), "unexpected end of input, expected identifier");
    let unfinished = vec![ident("a")];
    assert_eq!(parse_routes(&unfinished).err().unwrap(), "unexpected end of input, expected <= or =>");
    let loose = vec![ident("a"), Tok::Punct('<', false), Tok::Punct('=', false), ident("b")];
    assert_eq!(parse_routes(&loose).err().unwrap(), "expected <= or =>");
}

#[test]
fn bus_derive_routes_lanes() {
    let mut route_attr = attr("route");
    let mut toks = route("MyState", "target", false, "StepperData", "vel");
    toks.push(Tok::Punct(',', false));
    toks.extend(route("MyState", "pos", true, "StepperData", "position"));
    route_attr.list_tokens = Some(toks);
    let bus = item(
        "MyBus",
        vec![
            field("state", "MyState", vec![attr("state")]),
            field("estop", "EstopFlag", vec![]),
            field("lane1", "FastLane<StepperData>", vec![route_attr]),
        ],
    );
    let out = impl_bus(&bus).ok().unwrap();
    assert!(out.contains("    pub fn new(lane1: FastLane<StepperData>, state: MyState, estop: ::Oreos::hal::EstopFlag) -> &'static Self {\n"));
    assert!(out.contains("static __MyBus__: ::static_cell::StaticCell<MyBus> = ::static_cell::StaticCell::new();"));
    assert!(out.contains("__MyBus__.init(Self { lane1, state, estop })"));
    assert!(out.contains("    fn update(&self, state: &mut MyState) {\n        if let Some(data) = self.lane1.read() {\n        state.pos = data.position;\n        }\n    }\n"));
    assert!(out.contains("    fn write(&self, state: &MyState) {\n        if let Some(mut data) = self.lane1.read() {\n        data.vel = state.target;\n            self.lane1.write(data);\n        }\n    }\n"));
    assert!(out.contains("    fn lane1(&'static self) -> &'static FastLane<StepperData> {\n        &self.lane1\n    }\n"));
}

#[test]
fn bus_derive_needs_a_state_field() {
    let bus = item("B", vec![field("x", "u8", vec![])]);
    assert_eq!(impl_bus(&bus).err().unwrap().message, "missing #[state] field");
    let mut r = attr("route");
    r.list_tokens = Some(vec![ident("a")]);
    let bad = item("B", vec![field("s", "S", vec![attr("state")]), field("l", "L", vec![r])]);
    assert_eq!(bad.name, "B");
    assert_eq!(impl_bus(&bad).err().unwrap().message, "unexpected end of input, expected <= or =>");
}

#[test]
fn device_attribute_wraps_backends() {
    let dev = item(
        "Arm",
        vec![
            field("kernel", "ArmKernel", vec![attr("kernel")]),
            field("state", "DeviceState<S>", vec![attr("state")]),
            field("config", "DeviceConfig<C>", vec![attr("config")]),
            field("motor", "Motor", vec![attr("backend"), attr("doc")]),
        ],
    );
    let out = create_device(&dev).ok().unwrap();
    assert!(out.starts_with(" struct Arm  {\n kernel: ArmKernel,\n state: DeviceState<S>,\n config: DeviceConfig<C>,\n#[doc] pub motor: ::core::cell::UnsafeCell<Option<Motor>>,\n__NO_MIDDLEWARE__: ::Oreos::hal::NoMiddleware,\n}\n"));
    assert!(out.contains("pub fn new(motor: Motor, kernel: ArmKernel, state: DeviceState<S>, config: DeviceConfig<C>, ) -> Self {"));
    assert!(out.contains("Self { motor: ::core::cell::UnsafeCell::new(Some(motor)), kernel, state, config, __NO_MIDDLEWARE__: ::Oreos::hal::NoMiddleware::default() }"));
    assert!(out.contains("self.__NO_MIDDLEWARE__.process(&mut self.state, &self.config);"));
    assert!(out.contains("static __MOTOR_BACKEND__: ::static_cell::StaticCell<Motor> = ::static_cell::StaticCell::new();"));
    assert!(out.contains("async fn __MOTOR_TASK__(backend: &'static mut Motor) {"));
    assert!(out.contains("        spawner.spawn(__MOTOR_TASK__(motor).unwrap());\n"));
}

#[test]
fn device_attribute_keeps_a_marked_middleware() {
    let dev = item(
        "Fan",
        vec![
            field("k", "K", vec![attr("kernel")]),
            field("s", "S", vec![attr("state")]),
            field("c", "C", vec![attr("config")]),
            field("log", "Log", vec![attr("middleware")]),
        ],
    );
    let out = create_device(&dev).ok().unwrap();
    assert!(!out.contains("__NO_MIDDLEWARE__"));
    assert!(out.contains("c: C, log: Log,) -> Self {"));
    assert!(out.contains("self.log.command(cmd, &mut self.s, &self.c);"));
    let missing = item("X", vec![field("s", "S", vec![attr("state")])]);
    assert_eq!(create_device(&missing).err().unwrap().message, "missing #[kernel] field");
}

#[test]
fn device_list_sorts_items_by_kind() {
    let items = vec![
        DeviceItemModel { name: "led".to_string(), ty: "Output<'static>".to_string(), attrs: vec![] },
        DeviceItemModel { name: "bus".to_string(), ty: "Bus".to_string(), attrs: vec!["shared".to_string()] },
        DeviceItemModel { name: "arm".to_string(), ty: "Arm".to_string(), attrs: vec!["device".to_string(), "shared".to_string()] },
    ];
    let out = devices(&items);
    assert!(out.starts_with("pub mod devices {\n    use super::*;\n    pub static __BUS__: ::static_cell::StaticCell<::shared_cell::SharedCell<Bus>> = ::static_cell::StaticCell::new();\n    pub static __LED__: ::static_cell::StaticCell<Output<'static>> = ::static_cell::StaticCell::new();\n    pub static __ARM__: ::static_cell::StaticCell<Arm> = ::static_cell::StaticCell::new();\n"));
    assert!(out.contains("        pub led: *mut Output<'static>,\n        pub arm: *mut Arm,\n        pub bus: &'static ::shared_cell::SharedCell<Bus>,\n"));
    assert!(out.contains("        __arm_static_ref__.start(spawner);\n"));
    assert!(out.contains("            led: __LED__.init(device.led) as *mut _,\n            arm,\n            bus: __BUS__.init(::shared_cell::SharedCell::new(device.bus)),\n"));
    assert!(out.ends_with("pub use devices::ContextView as Context;\npub use devices::StoredContext;\npub use devices::Devices;\n"));
}
