use oreos::codegen::ioaccess::create_access_io;
use oreos::codegen::middleware::{
    middleware, middleware_stops, CommandModel, ImplItemModel, ImplModel, VariantFields,
    VariantModel,
};
use oreos::codegen::model::{AttrModel, DataModel, FieldModel, ItemModel, Tok};

fn s(x: &str) -> String {
    x.to_string()
}

fn io_attr(kind: &str) -> AttrModel {
    AttrModel {
        path: s("io"),
        list_tokens: Some(vec![Tok::Ident(s("kind")), Tok::Punct('=', false), Tok::Other(format!("\"{}\"", kind))]),
        text: format!("#[io(kind = \"{}\")]", kind),
    }
}

fn field(name: &str, ty: &str, attrs: Vec<AttrModel>) -> FieldModel {
    FieldModel { name: s(name), ty: s(ty), attrs, vis: String::new() }
}

fn item(fields: Vec<FieldModel>) -> ItemModel {
    ItemModel {
        name: s("Board"),
        data: DataModel::Struct(fields),
        attrs: String::new(),
        vis: String::new(),
        generics: s("< T >"),
        where_clause: String::new(),
        impl_generics: s("< T >"),
        type_generics: s("< T >"),
    }
}

#[test]
fn io_access_builds_constructor_and_accessors() {
    let it = item(vec![
        field("adc", "T", vec![io_attr("analog")]),
        field("plain", "u8", vec![]),
        field("link", "Uart", vec![io_attr("transport")]),
        field("other", "u8", vec![io_attr("spi")]),
    ]);
    let out = create_access_io(&it).ok().unwrap();
    let expected = [
        "impl < T > IoAccess for Board< T > {}\n",
        "impl < T > Board< T >  {\n",
        "    fn new(adc: T, link: Uart) -> Self {\n",
        "        Self { adc, link }\n",
        "    }\n",
        "    pub fn adc_mut(&mut self) -> &mut T {\n",
        "        &mut self.adc\n",
        "    }\n",
        "    pub fn link_mut(&mut self) -> &mut Uart {\n",
        "        &mut self.link\n",
        "    }\n",
        "}\n",
    ]
    .concat();
    assert_eq!(out, expected);
}

#[test]
fn io_access_skips_tuple_fields_and_rejects_non_structs() {
    let it = item(vec![field("0", "u8", vec![io_attr("analog")])]);
    let out = create_access_io(&it).ok().unwrap();
    assert!(out.contains("fn new() -> Self"));
    let mut e = item(vec![]);
    e.data = DataModel::Enum;
    assert_eq!(create_access_io(&e).err().unwrap().message, "IoAccess can only be derived for structs");
}

#[test]
fn io_access_argument_errors() {
    let mut bare = io_attr("analog");
    bare.list_tokens = None;
    let it = item(vec![field("a", "u8", vec![bare])]);
    assert_eq!(
        create_access_io(&it).err().unwrap().message,
        "expected attribute arguments in parentheses: #[io(...)]"
    );
    let mut not_str = io_attr("analog");
    not_str.list_tokens = Some(vec![Tok::Ident(s("kind")), Tok::Punct('=', false), Tok::Ident(s("analog"))]);
    let it = item(vec![field("a", "u8", vec![not_str])]);
    assert_eq!(create_access_io(&it).err().unwrap().message, "expected string literal");
    let mut short = io_attr("analog");
    short.list_tokens = Some(vec![Tok::Ident(s("kind"))]);
    let it = item(vec![field("a", "u8", vec![short])]);
    assert_eq!(create_access_io(&it).err().unwrap().message, "unexpected end of input, expected `=`");
}

#[test]
fn io_access_bounds_pwm_and_digital_field_types() {
    let it = item(vec![
        field("p", "P", vec![io_attr("pwm")]),
        field("a", "A", vec![io_attr("analog")]),
        field("d", "D", vec![io_attr("digital")]),
    ]);
    let out = create_access_io(&it).ok().unwrap();
    assert!(out.contains(
        "impl < T > Board< T > where P: ::embedded_hal::pwm::SetDutyCycle, \
         D: ::embedded_hal::digital::InputPin + ::embedded_hal::digital::OutputPin {\n"
    ));
    assert!(out.starts_with("impl < T > IoAccess for Board< T > {}\n"));
    let mut with_where = item(vec![field("p", "P", vec![io_attr("pwm")])]);
    with_where.where_clause = "where T : Clone".to_string();
    let out = create_access_io(&with_where).ok().unwrap();
    assert!(out.contains("where T : Clone, P: ::embedded_hal::pwm::SetDutyCycle {"));
    with_where.where_clause = "where T : Clone ,".to_string();
    let out = create_access_io(&with_where).ok().unwrap();
    assert!(out.contains("where T : Clone , P: ::embedded_hal::pwm::SetDutyCycle {"));
    let analog = item(vec![field("a", "A", vec![io_attr("analog")])]);
    assert!(create_access_io(&analog).ok().unwrap().contains("impl < T > Board< T >  {"));
}

fn on(path: &[&str]) -> AttrModel {
    let mut t = Vec::new();
    for (i, seg) in path.iter().enumerate() {
        if i > 0 {
            t.push(Tok::Punct(':', true));
            t.push(Tok::Punct(':', false));
        }
        t.push(Tok::Ident(s(seg)));
    }
    AttrModel { path: s("on"), list_tokens: Some(t), text: format!("#[on({})]", path.join("::")) }
}

fn commands() -> Vec<CommandModel> {
    vec![CommandModel {
        name: s("Cmd"),
        variants: Some(vec![
            VariantModel { name: s("Stop"), fields: VariantFields::Unit },
            VariantModel { name: s("Speed"), fields: VariantFields::Unnamed(2) },
            VariantModel {
                name: s("go_to"),
                fields: VariantFields::Named(vec![(s("x"), s("i32")), (s("y"), s("i32"))]),
            },
        ]),
    }]
}

fn handler(name: &str, attrs: Vec<AttrModel>) -> ImplItemModel {
    ImplItemModel::Fn { name: s(name), attrs, rest: format!("fn {}(&mut self) {{}}", name) }
}

#[test]
fn middleware_dispatches_each_variant() {
    let keep = AttrModel { path: s("inline"), list_tokens: None, text: s("#[inline]") };
    let imp = ImplModel {
        self_ty: s("Logger"),
        items: vec![
            handler("stop", vec![on(&["Cmd", "Stop"]), keep]),
            handler("speed", vec![on(&["Cmd", "Speed"])]),
            handler("go", vec![on(&["Cmd", "go_to"])]),
            ImplItemModel::Other(s("const K: u8 = 1;")),
        ],
    };
    assert!(!middleware_stops(&imp, &commands()));
    let out = middleware(&imp, &commands()).ok().unwrap();
    let expected = [
        "pub struct go_to { pub x: i32, pub y: i32 }\n",
        "impl Logger {\n",
        "#[inline]\n",
        "fn stop(&mut self) {}\n",
        "fn speed(&mut self) {}\n",
        "fn go(&mut self) {}\n",
        "const K: u8 = 1;\n",
        "    fn callback_match(&mut self, cmd: __DeviceCommand, state: &mut ::Oreos::hal::DeviceState<__DeviceState>, config: &::Oreos::hal::DeviceConfig<__DeviceConfig>) {\n",
        "        ::Oreos::defmt::debug!(\"middleware: dispatching command\");\n",
        "        match cmd {\n",
        "Cmd::Stop => Self::stop(state, config),\n",
        "Cmd::Speed(field0, field1) => Self::speed(state, config, field0, field1),\n",
        "Cmd::go_to { x, y } => { Self::go(state, config, GoTo { x, y }) }\n",
        "        }\n",
        "    }\n",
        "}\n",
    ]
    .concat();
    assert_eq!(out, expected);
}

#[test]
fn middleware_reports_unknown_commands_and_variants() {
    let unknown = ImplModel { self_ty: s("M"), items: vec![handler("h", vec![on(&["Other", "X"])])] };
    assert!(!middleware_stops(&unknown, &commands()));
    assert_eq!(middleware(&unknown, &commands()).err().unwrap().message, "command not Other::X found");
    let missing = ImplModel { self_ty: s("M"), items: vec![handler("h", vec![on(&["Cmd", "Nope"])])] };
    assert!(!middleware_stops(&missing, &commands()));
    assert_eq!(middleware(&missing, &commands()).err().unwrap().message, "command not Cmd::Nope found");
}

#[test]
fn middleware_stops_on_a_command_that_is_not_an_enum() {
    let not_enum = vec![CommandModel { name: s("Cmd"), variants: None }];
    let any = ImplModel { self_ty: s("M"), items: vec![handler("h", vec![on(&["Cmd", "Stop"])])] };
    assert!(middleware_stops(&any, &not_enum));
    let first_fails = ImplModel {
        self_ty: s("M"),
        items: vec![handler("h", vec![on(&["Other", "X"]), on(&["Cmd", "Stop"])])],
    };
    assert!(!middleware_stops(&first_fails, &not_enum));
}

#[test]
fn middleware_reports_bad_paths() {
    let mut bad = on(&["Cmd", "Stop"]);
    bad.list_tokens = Some(vec![Tok::Ident(s("Cmd")), Tok::Punct(',', false)]);
    let imp = ImplModel { self_ty: s("M"), items: vec![handler("h", vec![bad])] };
    assert!(!middleware_stops(&imp, &commands()));
    assert_eq!(middleware(&imp, &commands()).err().unwrap().message, "unexpected token");
    let mut bare = on(&["Cmd"]);
    bare.list_tokens = None;
    let imp = ImplModel { self_ty: s("M"), items: vec![handler("h", vec![bare])] };
    assert_eq!(
        middleware(&imp, &commands()).err().unwrap().message,
        "expected attribute arguments in parentheses: #[on(...)]"
    );
    let empty = ImplModel { self_ty: s("M"), items: vec![] };
    let out = middleware(&empty, &commands()).ok().unwrap();
    assert!(out.starts_with("impl M {\n    fn callback_match"));
}
