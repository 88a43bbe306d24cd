use oreos::codegen::app::{
    app, parse_app_args, AppItem, FnArgModel, FnAttr, FnModel, MetaArg, ModuleModel,
    PatIdentModel, StmtModel,
};
use oreos::codegen::model::Tok;

fn s(x: &str) -> String {
    x.to_string()
}

fn plain_attr(path: &str) -> FnAttr {
    FnAttr { path: s(path), text: format!("#[{}]", path), args: Ok(vec![]) }
}

fn attr_with(path: &str, text: &str, args: Vec<MetaArg>) -> FnAttr {
    FnAttr { path: s(path), text: s(text), args: Ok(args) }
}

fn nv(key: &str, value: &str, digits: Option<&str>) -> MetaArg {
    MetaArg::NameValue { key: s(key), value: s(value), int_digits: digits.map(s) }
}

fn func(name: &str, attrs: Vec<FnAttr>, args: Vec<FnArgModel>, stmts: Vec<StmtModel>) -> FnModel {
    FnModel {
        attrs,
        sig_prefix: s("async fn"),
        name: s(name),
        generics: String::new(),
        args,
        sig_suffix: String::new(),
        stmts,
    }
}

fn init_fn() -> FnModel {
    func(
        "setup",
        vec![attr_with("init", "#[init(config = cfg())]", vec![nv("config", "cfg()", None)])],
        vec![
            FnArgModel::Typed { pat: s("p"), pat_ident: None, ty: s("Peripherals"), ty_is_context: false },
            FnArgModel::Typed { pat: s("s"), pat_ident: None, ty: s("Spawner"), ty_is_context: false },
        ],
        vec![StmtModel { text: s("Devices::new(p)"), once: None }],
    )
}

fn module(items: Vec<AppItem>) -> ModuleModel {
    ModuleModel { attrs: String::new(), vis: s("pub"), name: s("app"), items: Some(items) }
}

#[test]
fn app_args_name_the_hal_crate() {
    let t = vec![Tok::Ident(s("hal_crate")), Tok::Punct('=', false), Tok::Ident(s("embassy_stm32"))];
    assert_eq!(parse_app_args(&t), Ok(s("embassy_stm32")));
    let missing_eq = vec![Tok::Ident(s("hal_crate")), Tok::Ident(s("x"))];
    assert_eq!(parse_app_args(&missing_eq), Err(s("expected `=`")));
    let trailing = vec![
        Tok::Ident(s("hal_crate")),
        Tok::Punct('=', false),
        Tok::Ident(s("x")),
        Tok::Punct(',', false),
    ];
    assert_eq!(parse_app_args(&trailing), Err(s("unexpected token")));
    assert_eq!(parse_app_args(&vec![]), Err(s("unexpected end of input, expected identifier")));
}

#[test]
fn app_with_init_and_loop_spawns_a_task() {
    let lp = func(
        "blink",
        vec![attr_with("loop_", "#[loop_(rate = 250)]", vec![nv("rate", "250", Some("250"))])],
        vec![FnArgModel::Typed {
            pat: s("ctx"),
            pat_ident: Some(PatIdentModel { prefix: String::new(), ident: s("ctx"), subpat: String::new() }),
            ty: s("Context"),
            ty_is_context: true,
        }],
        vec![
            StmtModel { text: s("#[once] let mut n = 0;"), once: Some(s("let mut n = 0;")) },
            StmtModel { text: s("ctx.led.toggle();"), once: None },
        ],
    );
    let m = module(vec![AppItem::Fn(init_fn()), AppItem::Fn(lp)]);
    let out = app(&m, "hal").unwrap();
    let expected = "pub mod app {\nuse super::*;\nuse crate::devices::*;\n\
pub async fn setup(p: Peripherals, s: Spawner)  {\n    Devices::new(p)\n}\n\
pub async fn blink(mut ctx: crate::devices::ContextView<'_>)  {\n    ctx.led.toggle();\n}\n\
}\n\
#[embassy_executor::main]\nasync fn main(spawner: embassy_executor::Spawner) {\n    use crate::app::*;\n    let p = hal::init(cfg());\n    let dev: devices::Devices = setup(p, spawner).await;\n    let ctx = devices::__init_devices__(spawner, dev);\n    spawner.spawn(blink_task(ctx).unwrap());\n}\n\
#[embassy_executor::task]\nasync fn blink_task(mut ctx: crate::devices::StoredContext) {\nlet mut n = 0;\n    loop {\n        crate::app::blink(ctx.view()).await;\n        ::Oreos::embassy_time::Timer::after_millis(250u64).await;\n    }\n}\n";
    assert_eq!(out, expected);
}

#[test]
fn app_loop_rate_defaults_to_one_second() {
    let lp = func("tick", vec![plain_attr("loop_")], vec![], vec![]);
    let m = module(vec![AppItem::Fn(init_fn()), AppItem::Fn(lp)]);
    let out = app(&m, "hal").unwrap();
    assert!(out.contains("Timer::after_millis(1000u64)"));
    assert!(out.contains("spawner.spawn(tick_task(ctx).unwrap());"));
}

#[test]
fn app_without_init_uses_default_config_and_reports_missing_init() {
    let m = module(vec![AppItem::Other(s("const X: u8 = 1;"))]);
    let out = app(&m, "hal").unwrap();
    assert!(out.contains("const X: u8 = 1;\n"));
    assert!(out.contains("let p = hal::init(Default::default());"));
    assert!(out.contains("Missing #[init] function"));
}

#[test]
fn app_rejects_a_second_init() {
    let m = module(vec![AppItem::Fn(init_fn()), AppItem::Fn(init_fn())]);
    assert_eq!(app(&m, "hal"), Err(s("only one #[init] is allowed")));
}

#[test]
fn app_rejects_init_arguments_other_than_config() {
    let f = func("setup", vec![attr_with("init", "#[init(x)]", vec![MetaArg::Other(s("x"))])], vec![], vec![]);
    let m = module(vec![AppItem::Fn(f)]);
    assert_eq!(app(&m, "hal"), Err(s("Expected key = value")));
}

#[test]
fn app_loop_rate_must_be_an_integer_that_fits() {
    let not_int = func("a", vec![attr_with("loop_", "", vec![nv("rate", "x", None)])], vec![], vec![]);
    assert_eq!(app(&module(vec![AppItem::Fn(not_int)]), "hal"), Err(s("Expected an integer")));
    let too_big = func(
        "a",
        vec![attr_with("loop_", "", vec![nv("priority", "256", Some("256"))])],
        vec![],
        vec![],
    );
    assert_eq!(
        app(&module(vec![AppItem::Fn(too_big)]), "hal"),
        Err(s("number too large to fit in target type"))
    );
    let huge = func(
        "a",
        vec![attr_with("loop_", "", vec![nv("rate", "18446744073709551616", Some("18446744073709551616"))])],
        vec![],
        vec![],
    );
    assert_eq!(
        app(&module(vec![AppItem::Fn(huge)]), "hal"),
        Err(s("number too large to fit in target type"))
    );
}

#[test]
fn app_attribute_parse_errors_pass_through() {
    let f = func(
        "setup",
        vec![FnAttr { path: s("init"), text: s("#[init(=)]"), args: Err(s("expected identifier")) }],
        vec![],
        vec![],
    );
    assert_eq!(app(&module(vec![AppItem::Fn(f)]), "hal"), Err(s("expected identifier")));
}

#[test]
fn app_on_a_module_without_body() {
    let m = ModuleModel { attrs: String::new(), vis: String::new(), name: s("app"), items: None };
    let out = app(&m, "h").unwrap();
    assert!(out.starts_with(" mod app;\n#[embassy_executor::main]"));
}
