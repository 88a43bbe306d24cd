use oreos::cli::layout::insert_blank_lines_between_items;
use oreos::cli::ops::{
    add_backend, add_middleware, confirms_overwrite, device_names_are_idents, generate,
    generate_backend, module_declarations, new_device, EditError, GenerateError,
};
use oreos::cli::scheme::{Backend, ControlNode, Device, Middleware};
use oreos::cli::templates::{
    backend_template, create_base_runtime, component_name_fits, device_template, is_ident_str,
    kernel_template, middleware_template, pascal_name_fits, snake_name_fits,
};

fn heater() -> Device {
    let mut d = new_device("TopHeater", "HeaterState", "HeaterConfig", "main");
    d.backends.push(Backend { name: "HeaterBackend".to_string(), periph_access: None });
    d.middleware.push(Middleware { name: "Log".to_string() });
    d
}

#[test]
fn blank_lines_separate_top_level_items() {
    let code = "use a;\nstruct A {\n    x: u8,\n}\nfn f() {}\n";
    assert_eq!(
        insert_blank_lines_between_items(code),
        "use a;\n\nstruct A {\n    x: u8,\n}\n\nfn f() {}\n"
    );
}

#[test]
fn blank_lines_keep_attributes_with_their_item() {
    let code = "#[derive(X)]\n#[y]\npub struct A;\n";
    assert_eq!(insert_blank_lines_between_items(code), code);
}

#[test]
fn blank_lines_separate_methods_but_not_the_first() {
    let code = "impl A {\n    fn a() {}\n    fn b() {}\n}\n";
    assert_eq!(
        insert_blank_lines_between_items(code),
        "impl A {\n    fn a() {}\n\n    fn b() {}\n}\n"
    );
}

#[test]
fn blank_lines_follow_str_lines() {
    assert_eq!(insert_blank_lines_between_items("a\r\nb"), "a\nb\n");
    assert_eq!(insert_blank_lines_between_items(""), "");
    assert_eq!(insert_blank_lines_between_items("x\n\npub fn y() {}"), "x\n\npub fn y() {}\n");
}

#[test]
fn blank_lines_see_past_unicode_whitespace() {
    assert_eq!(
        insert_blank_lines_between_items("use a;\n\u{3000}fn f() {}\n"),
        "use a;\n\n\u{3000}fn f() {}\n"
    );
    assert_eq!(
        insert_blank_lines_between_items("use a;\n\u{200b}fn f() {}\n"),
        "use a;\n\u{200b}fn f() {}\n"
    );
}

#[test]
fn blank_lines_spacing_twice_is_once() {
    let code = "use a;\n#[x]\nstruct A {\n    x: u8,\n}\nimpl A {\n    fn a() {}\n    fn b() {}\n}\nfn f() {}";
    let once = insert_blank_lines_between_items(code);
    assert_eq!(insert_blank_lines_between_items(&once), once);
    let crlf = insert_blank_lines_between_items("a\r\nfn b() {}\r\n");
    assert_eq!(insert_blank_lines_between_items(&crlf), crlf);
}

#[test]
fn template_names_are_identifier_text() {
    assert!(is_ident_str("Top_Heater9"));
    assert!(is_ident_str(""));
    assert!(!is_ident_str("top heater"));
    assert!(!is_ident_str("x;fn f()"));
    assert!(!is_ident_str("Café"));
}

#[test]
fn kebab_and_spaced_names_are_cased_before_splicing() {
    assert!(pascal_name_fits("top-heater"));
    assert!(snake_name_fits("Heater State"));
    assert!(component_name_fits("sensor-link", "backend"));
    assert!(!pascal_name_fits("x;fn f()"));
    let d = new_device("top-heater", "heater state", "heater-config", "main bus");
    assert!(device_names_are_idents(&d));
    let files = generate(&d).ok().unwrap();
    assert_eq!(files[0].1, kernel_template("top-heater_kernel", "heater state", "heater-config", "main bus", "top-heater").unwrap());
    assert!(files[0].1.contains("pub struct TopHeaterKernel"));
    assert!(files[1].1.contains("use crate::top_heater::kernel::TopHeaterKernel;"));
    assert!(files[1].1.contains("pub struct TopHeater {"));
}

#[test]
fn kernel_template_prints_bus_and_kernel() {
    let out = kernel_template("top_heater_kernel", "heater_state", "heater_config", "main", "TopHeater")
        .unwrap();
    assert_eq!(
        out,
        "use crate::oreos::prelude::*;\n\
         use crate::top_heater::device::{HeaterState, HeaterConfig};\n\
         \n\
         #[derive(GenericBus)]\n\
         pub struct MainBus {\n    #[state]\n    pub state: HeaterState,\n    pub estop: EstopFlag,\n}\n\
         \n\
         #[derive(Kernel)]\n\
         pub struct TopHeaterKernel {\n    #[state]\n    pub state: HeaterState,\n    #[config]\n    pub config: HeaterConfig,\n    #[bus]\n    pub bus: &'static MainBus,\n}\n"
    );
}

#[test]
fn middleware_template_names_the_device_module() {
    let out = middleware_template("log", "TopHeater").unwrap();
    assert!(out.contains("use crate::top_heater::device::"));
    assert!(out.contains("__DeviceCommand"));
    assert!(out.contains("#[derive(Middleware)]\npub struct Log {}"));
    assert!(out.contains("\n\n#[middleware]\nimpl Log {}\n"));
}

#[test]
fn backend_template_declares_state_condition_and_backend() {
    let out = backend_template("heater_control").unwrap();
    assert!(out.starts_with("use crate::oreos::prelude::*;\n\npub struct HeaterControlState {}\n"));
    assert!(out.contains("pub struct HeaterControlCondition;"));
    assert!(out.contains("impl Condition for HeaterControlCondition {"));
    assert!(out.contains("impl Backend for HeaterControl {"));
    assert!(out.contains("    type Condition = HeaterControlCondition;"));
    assert!(out.contains("    async fn tick(&mut self) -> Self::Output {"));
    assert!(backend_template("9lives").is_none());
}

#[test]
fn device_template_lists_components() {
    let out = device_template(
        "TopHeater",
        "HeaterState",
        "top_heater_kernel",
        "HeaterConfig",
        &["Log"],
        &["HeaterBackend"],
    )
    .unwrap();
    assert!(out.contains("use crate::top_heater::kernel::TopHeaterKernel;\n"));
    assert!(out.contains("use crate::top_heater::log_middleware::Log;\n"));
    assert!(out.contains("use crate::top_heater::heater_backend::HeaterBackend;\n"));
    assert!(out.contains("pub enum TopHeaterCommand {}"));
    assert!(out.contains("#[create(Device)]\npub struct TopHeater {"));
    assert!(out.contains("    #[middleware]\n    log: Log,\n"));
    assert!(out.contains("    #[backend]\n    heater_backend: HeaterBackend,\n"));
    let bare = device_template("Fan", "S", "k", "C", &[], &[]).unwrap();
    assert!(bare.contains("    config: DeviceConfig<C>,\n}"));
}

#[test]
fn runtime_template_prints() {
    let out = create_base_runtime().unwrap();
    assert!(out.starts_with("#![no_std]\n#![no_main]\n"));
    assert!(out.contains("oreos::install_defmt_timestamp!();"));
    assert!(out.contains("#[app(hal_crate = your_embassy_crate)]"));
    assert!(out.contains("ctx.led.toggle();"));
}

#[test]
fn generate_lists_files_in_a_stable_order() {
    let files = generate(&heater()).ok().unwrap();
    let names: Vec<&str> = files.iter().map(|(n, _)| n.as_str()).collect();
    assert_eq!(names, vec!["kernel.rs", "device.rs", "heater_backend.rs", "log_middleware.rs"]);
    assert_eq!(files[0].1, kernel_template("TopHeater_kernel", "HeaterState", "HeaterConfig", "main", "TopHeater").unwrap());
    assert!(device_names_are_idents(&heater()));
    let mut spaced = heater();
    spaced.middleware.push(Middleware { name: "two words".to_string() });
    assert!(device_names_are_idents(&spaced));
    let mut punctuated = heater();
    punctuated.middleware.push(Middleware { name: "semi;colon".to_string() });
    assert!(!device_names_are_idents(&punctuated));
    let again = generate(&heater()).ok().unwrap();
    assert_eq!(files, again);
    assert_eq!(
        module_declarations(&files),
        "pub mod kernel;\npub mod device;\npub mod heater_backend;\npub mod log_middleware;\n"
    );
}

#[test]
fn generate_reports_the_first_unprintable_file() {
    let d = new_device("9bad", "S", "C", "b");
    match generate(&d) {
        Err(GenerateError::Unprintable(f)) => assert_eq!(f, "kernel.rs"),
        _ => panic!("expected an unprintable kernel"),
    }
}

#[test]
fn generate_backend_needs_a_registered_backend() {
    let d = heater();
    match generate_backend(&d, "HeaterBackend") {
        Ok((f, c)) => {
            assert_eq!(f, "heater_backend.rs");
            assert_eq!(c, backend_template("HeaterBackend").unwrap());
        }
        _ => panic!("expected the backend file"),
    }
    match generate_backend(&d, "Other") {
        Err(GenerateError::BackendNotRegistered(n)) => assert_eq!(n, "Other"),
        _ => panic!("expected a missing backend"),
    }
}

#[test]
fn module_declarations_strip_every_rs_suffix() {
    let files = vec![("a.rs.rs".to_string(), String::new()), ("b".to_string(), String::new())];
    assert_eq!(module_declarations(&files), "pub mod a;\npub mod b;\n");
}

#[test]
fn new_device_uses_a_sync_unbounded_lane() {
    let d = new_device("Fan", "FanState", "FanConfig", "fan_bus");
    assert_eq!(d.kernel.name, "Fan_kernel");
    assert_eq!(d.kernel.bus.name, "fan_bus");
    assert_eq!(d.kernel.bus.lane_type, "sync");
    assert_eq!(d.kernel.bus.bound, "unbounded");
    assert!(d.backends.is_empty() && d.middleware.is_empty());
}

#[test]
fn add_backend_and_middleware_edit_the_named_device() {
    let mut node = ControlNode::default();
    node.devices.push(new_device("Fan", "S", "C", "b"));
    node.devices.push(new_device("Pump", "S", "C", "b"));
    assert_eq!(add_backend(&mut node, "Pump", "Motor".to_string()).ok().unwrap(), "Pump");
    assert_eq!(node.devices[1].backends[0].name, "Motor");
    assert!(node.devices[0].backends.is_empty());
    assert_eq!(add_middleware(&mut node, "Fan", "Log".to_string()).ok().unwrap(), "Fan");
    assert_eq!(node.devices[0].middleware[0].name, "Log");
    match add_backend(&mut node, "Nope", "X".to_string()) {
        Err(EditError::DeviceNotFound(n)) => assert_eq!(n, "Nope"),
        _ => panic!("expected a missing device"),
    }
    assert_eq!(node.devices.len(), 2);
}

#[test]
fn overwrite_needs_y_or_yes() {
    assert!(confirms_overwrite("y"));
    assert!(confirms_overwrite("Y"));
    assert!(confirms_overwrite("yEs"));
    assert!(!confirms_overwrite("no"));
    assert!(!confirms_overwrite(""));
    assert!(!confirms_overwrite("yess"));
}
