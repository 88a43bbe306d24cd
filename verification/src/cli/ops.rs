//! What the command line tool computes for its commands: the files generated
//! for a device, and the edits to the description.

use vstd::prelude::*;
use crate::casing::{snake_with_suffix, spec_snake_with_suffix};
use crate::cli::scanner::opt_string_view;
use crate::cli::scheme::{
    backends_view, device_index, has_device, middleware_view, Backend, BackendView, BusLane,
    BusLaneView, ControlNode, Device, DeviceView, Kernel, KernelView, Middleware, TypeName,
    devices_view,
};
use crate::cli::templates::{
    backend_source, backend_template, component_fits, component_name_fits, components_fit,
    device_names_fit, device_source, device_template, formatted, kernel_names_fit,
    kernel_source, kernel_template, middleware_source, middleware_template, pascal_fits,
    pascal_name_fits, snake_fits, snake_name_fits,
};
use crate::text::{chars_of, push_str, same_text, string_from_chars};

verus! {

/// A file to generate whose template does not print.
pub enum GenerateError {
    Unprintable(String),
    /// The device has no backend of that name.
    BackendNotRegistered(String),
}

/// A planned file: its name and its contents, if the template printed.
pub type Planned = (Seq<char>, Option<Seq<char>>);

pub open spec fn rs_file(stem: Seq<char>) -> Seq<char> {
    stem + ".rs"@
}

pub open spec fn backend_file(name: Seq<char>) -> Seq<char> {
    rs_file(spec_snake_with_suffix(name, "backend"@))
}

pub open spec fn middleware_file(name: Seq<char>) -> Seq<char> {
    rs_file(spec_snake_with_suffix(name, "middleware"@))
}

pub open spec fn backend_names(d: DeviceView) -> Seq<Seq<char>> {
    d.backends.map_values(|b: BackendView| b.name)
}

/// The files of a device, in a stable order: the kernel, the device, then
/// each backend and each middleware in the order the description lists them.
pub open spec fn planned_files(d: DeviceView) -> Seq<Planned> {
    let kernel = (
        "kernel.rs"@,
        formatted(kernel_source(d.kernel.name, d.state, d.config, d.kernel.bus.name, d.name)),
    );
    let device = (
        "device.rs"@,
        formatted(
            device_source(d.name, d.state, d.kernel.name, d.config, d.middleware, backend_names(d)),
        ),
    );
    seq![kernel, device] + backend_names(d).map_values(
        |b: Seq<char>| (backend_file(b), formatted(backend_source(b))),
    ) + d.middleware.map_values(
        |m: Seq<char>| (middleware_file(m), formatted(middleware_source(m, d.name))),
    )
}

pub open spec fn all_printed(p: Seq<Planned>) -> bool {
    forall|i: int| 0 <= i < p.len() ==> (#[trigger] p[i]).1 is Some
}

/// `i` is the first planned file whose template did not print.
pub open spec fn first_unprintable(p: Seq<Planned>, i: int) -> bool {
    &&& 0 <= i < p.len()
    &&& p[i].1 is None
    &&& forall|j: int| 0 <= j < i ==> (#[trigger] p[j]).1 is Some
}

pub open spec fn files_view(v: Seq<(String, String)>) -> Seq<(Seq<char>, Seq<char>)> {
    v.map_values(|f: (String, String)| (f.0@, f.1@))
}

pub open spec fn printed(p: Seq<Planned>) -> Seq<(Seq<char>, Seq<char>)> {
    p.map_values(|f: Planned| (f.0, f.1.unwrap()))
}

/// The generated files come in a stable order: the kernel, the device, then
/// one file per backend and one per middleware, each in the order the
/// description lists them.
pub proof fn lemma_generate_order(d: DeviceView)
    ensures
        planned_files(d).len() == 2 + d.backends.len() + d.middleware.len(),
        planned_files(d)[0].0 == "kernel.rs"@,
        planned_files(d)[1].0 == "device.rs"@,
        forall|i: int| 0 <= i < d.backends.len() ==> #[trigger] planned_files(d)[2 + i] == (
            backend_file(backend_names(d)[i]),
            formatted(backend_source(backend_names(d)[i])),
        ),
        forall|i: int|
            0 <= i < d.middleware.len() ==> #[trigger] planned_files(d)[2 + d.backends.len() + i]
                == (
                middleware_file(d.middleware[i]),
                formatted(middleware_source(d.middleware[i], d.name)),
            ),
{
    let bm = backend_names(d).map_values(
        |b: Seq<char>| (backend_file(b), formatted(backend_source(b))),
    );
    let mm = d.middleware.map_values(
        |m: Seq<char>| (middleware_file(m), formatted(middleware_source(m, d.name))),
    );
    let head = seq![
        ("kernel.rs"@, formatted(kernel_source(d.kernel.name, d.state, d.config, d.kernel.bus.name, d.name))),
        ("device.rs"@, formatted(device_source(d.name, d.state, d.kernel.name, d.config, d.middleware, backend_names(d)))),
    ];
    assert(planned_files(d) == head + bm + mm);
    assert forall|i: int| 0 <= i < d.backends.len() implies #[trigger] planned_files(d)[2 + i] == (
        backend_file(backend_names(d)[i]),
        formatted(backend_source(backend_names(d)[i])),
    ) by {
        assert((head + bm)[2 + i] == bm[i]);
    }
    assert forall|i: int| 0 <= i < d.middleware.len() implies #[trigger] planned_files(d)[2
        + d.backends.len() + i] == (
        middleware_file(d.middleware[i]),
        formatted(middleware_source(d.middleware[i], d.name)),
    ) by {
        assert((head + bm + mm)[2 + d.backends.len() + i] == mm[i]);
    }
}

fn literal(s: &str) -> (r: String)
    ensures
        r@ == s@,
{
    s.to_owned()
}

fn rs_name(stem: &String) -> (r: String)
    ensures
        r@ == rs_file(stem@),
{
    let mut v = chars_of(stem.as_str());
    push_str(&mut v, ".rs");
    string_from_chars(&v)
}

/// Records a planned file; fails with its name where the template did not
/// print.
fn add_file(
    files: &mut Vec<(String, String)>,
    name: String,
    content: Option<String>,
) -> (r: Result<(), GenerateError>)
    ensures
        match r {
            Ok(()) => content is Some && files_view(final(files)@) == files_view(old(files)@).push(
                (name@, opt_string_view(content)->0),
            ),
            Err(GenerateError::Unprintable(f)) => content is None && f@ == name@,
            Err(_) => false,
        },
{
    match content {
        Some(c) => {
            let ghost before = files_view(files@);
            let ghost entry = (name@, c@);
            files.push((name, c));
            assert(files_view(files@) =~= before.push(entry));
            Ok(())
        },
        None => Err(GenerateError::Unprintable(name)),
    }
}

/// Every name the templates splice in is, in the form it takes there (its
/// PascalCase or snake_case form, or its file stem), made of identifier
/// characters.
pub open spec fn device_idents(d: DeviceView) -> bool {
    &&& kernel_names_fit(d.kernel.name, d.state, d.config, d.kernel.bus.name, d.name)
    &&& device_names_fit(d.name, d.state, d.kernel.name, d.config, d.middleware, backend_names(d))
}

/// Whether every name of the device, in the form the templates splice it
/// in, is made of identifier characters.
pub fn device_names_are_idents(device: &Device) -> (b: bool)
    ensures
        b == device_idents(device@),
{
    if !pascal_name_fits(device.kernel.name.as_str()) || !pascal_name_fits(
        device.state.name.as_str(),
    ) || !pascal_name_fits(device.config.name.as_str()) || !pascal_name_fits(
        device.kernel.bus.name.as_str(),
    ) || !snake_name_fits(device.name.as_str()) || !pascal_name_fits(device.name.as_str()) {
        return false;
    }
    let ghost bn = backend_names(device@);
    let mut i: usize = 0;
    while i < device.backends.len()
        invariant
            i <= device.backends@.len(),
            bn == backend_names(device@),
            bn.len() == device.backends@.len(),
            forall|j: int| 0 <= j < i ==> #[trigger] component_fits(bn[j], "backend"@),
        decreases device.backends@.len() - i,
    {
        assert(bn[i as int] == device.backends@[i as int].name@);
        if !component_name_fits(device.backends[i].name.as_str(), "backend") {
            return false;
        }
        i = i + 1;
    }
    let ghost mn = device@.middleware;
    let mut i: usize = 0;
    while i < device.middleware.len()
        invariant
            i <= device.middleware@.len(),
            mn == device@.middleware,
            mn.len() == device.middleware@.len(),
            forall|j: int| 0 <= j < i ==> #[trigger] component_fits(mn[j], "middleware"@),
            components_fit(bn, "backend"@),
            bn == backend_names(device@),
        decreases device.middleware@.len() - i,
    {
        assert(mn[i as int] == device.middleware@[i as int].name@);
        if !component_name_fits(device.middleware[i].name.as_str(), "middleware") {
            return false;
        }
        i = i + 1;
    }
    true
}

/// Generates the `(file name, contents)` pairs of a device in a stable,
/// deterministic order (kernel, device, then backends and middleware in the
/// order of the description), so that generating again gives identical
/// output. Fails with the first file whose template does not print.
pub fn generate(device: &Device) -> (r: Result<Vec<(String, String)>, GenerateError>)
    requires
        device_idents(device@),
    ensures
        match r {
            Ok(files) => all_printed(planned_files(device@)) && files_view(files@) == printed(
                planned_files(device@),
            ),
            Err(GenerateError::Unprintable(f)) => exists|i: int|
                first_unprintable(planned_files(device@), i) && f@ == planned_files(device@)[i].0,
            Err(_) => false,
        },
{
    let ghost plan = planned_files(device@);
    let mut backends: Vec<&str> = Vec::new();
    let mut i: usize = 0;
    while i < device.backends.len()
        invariant
            i <= device.backends@.len(),
            backends@.len() == i,
            forall|j: int| 0 <= j < i ==> (#[trigger] backends@[j])@ == device.backends@[j].name@,
        decreases device.backends@.len() - i,
    {
        backends.push(device.backends[i].name.as_str());
        i = i + 1;
    }
    let mut middlewares: Vec<&str> = Vec::new();
    let mut i: usize = 0;
    while i < device.middleware.len()
        invariant
            i <= device.middleware@.len(),
            middlewares@.len() == i,
            forall|j: int| 0 <= j < i ==> (#[trigger] middlewares@[j])@ == device.middleware@[j].name@,
        decreases device.middleware@.len() - i,
    {
        middlewares.push(device.middleware[i].name.as_str());
        i = i + 1;
    }
    let ghost bnames = backend_names(device@);
    let ghost mnames = device@.middleware;
    assert(backends@.map_values(|s: &str| s@) =~= bnames);
    assert(middlewares@.map_values(|s: &str| s@) =~= mnames);

    proof {
        lemma_generate_order(device@);
    }
    let mut files: Vec<(String, String)> = Vec::new();
    let kernel = kernel_template(
        device.kernel.name.as_str(),
        device.state.name.as_str(),
        device.config.name.as_str(),
        device.kernel.bus.name.as_str(),
        device.name.as_str(),
    );
    let r = add_file(&mut files, literal("kernel.rs"), kernel);
    if r.is_err() {
        proof {
            assert(first_unprintable(plan, 0));
        }
        return match r {
            Err(e) => Err(e),
            Ok(()) => Ok(files),
        };
    }
    let dev = device_template(
        device.name.as_str(),
        device.state.name.as_str(),
        device.kernel.name.as_str(),
        device.config.name.as_str(),
        middlewares.as_slice(),
        backends.as_slice(),
    );
    let r = add_file(&mut files, literal("device.rs"), dev);
    if r.is_err() {
        proof {
            assert(first_unprintable(plan, 1));
        }
        return match r {
            Err(e) => Err(e),
            Ok(()) => Ok(files),
        };
    }
    assert(files_view(files@) =~= printed(plan.take(2)));

    let nb = backends.len();
    let mut i: usize = 0;
    while i < nb
        invariant
            nb == backends@.len(),
            nb == bnames.len(),
            i <= nb,
            plan == planned_files(device@),
            bnames == backend_names(device@),
            components_fit(bnames, "backend"@),
            plan.len() == 2 + nb + device@.middleware.len(),
            forall|j: int| 0 <= j < nb ==> #[trigger] plan[2 + j] == (
                backend_file(bnames[j]),
                formatted(backend_source(bnames[j])),
            ),
            forall|j: int| 0 <= j < nb ==> (#[trigger] backends@[j])@ == bnames[j],
            forall|j: int| 0 <= j < 2 + i ==> (#[trigger] plan[j]).1 is Some,
            files_view(files@) == printed(plan.take(2 + i)),
        decreases nb - i,
    {
        let b: &str = backends[i];
        assert(component_fits(bnames[i as int], "backend"@));
        let stem = snake_with_suffix(b, "backend");
        let name = rs_name(&stem);
        let content = backend_template(b);
        assert(plan[2 + i] == (backend_file(bnames[i as int]), formatted(backend_source(bnames[i as int]))));
        let r = add_file(&mut files, name, content);
        if r.is_err() {
            proof {
                assert(first_unprintable(plan, 2 + i));
            }
            return match r {
                Err(e) => Err(e),
                Ok(()) => Ok(files),
            };
        }
        assert(plan.take(2 + i + 1) =~= plan.take(2 + i).push(plan[2 + i]));
        assert(printed(plan.take(2 + i + 1)) =~= printed(plan.take(2 + i)).push(
            (plan[2 + i].0, plan[2 + i].1.unwrap()),
        ));
        i = i + 1;
    }

    let nm = middlewares.len();
    let mut i: usize = 0;
    while i < nm
        invariant
            nm == middlewares@.len(),
            nm == mnames.len(),
            nb == bnames.len(),
            i <= nm,
            plan == planned_files(device@),
            mnames == device@.middleware,
            components_fit(mnames, "middleware"@),
            snake_fits(device@.name),
            plan.len() == 2 + nb + nm,
            forall|j: int| 0 <= j < nm ==> #[trigger] plan[2 + nb + j] == (
                middleware_file(mnames[j]),
                formatted(middleware_source(mnames[j], device@.name)),
            ),
            forall|j: int| 0 <= j < nm ==> (#[trigger] middlewares@[j])@ == mnames[j],
            forall|j: int| 0 <= j < 2 + nb + i ==> (#[trigger] plan[j]).1 is Some,
            files_view(files@) == printed(plan.take(2 + nb + i)),
        decreases nm - i,
    {
        let m: &str = middlewares[i];
        assert(component_fits(mnames[i as int], "middleware"@));
        let stem = snake_with_suffix(m, "middleware");
        let name = rs_name(&stem);
        let content = middleware_template(m, device.name.as_str());
        assert(plan[2 + nb + i] == (
            middleware_file(mnames[i as int]),
            formatted(middleware_source(mnames[i as int], device@.name)),
        ));
        let r = add_file(&mut files, name, content);
        if r.is_err() {
            proof {
                assert(first_unprintable(plan, 2 + nb + i));
            }
            return match r {
                Err(e) => Err(e),
                Ok(()) => Ok(files),
            };
        }
        assert(plan.take(2 + nb + i + 1) =~= plan.take(2 + nb + i).push(plan[2 + nb + i]));
        assert(printed(plan.take(2 + nb + i + 1)) =~= printed(plan.take(2 + nb + i)).push(
            (plan[2 + nb + i].0, plan[2 + nb + i].1.unwrap()),
        ));
        i = i + 1;
    }
    assert(plan.take(2 + nb + nm) =~= plan);
    Ok(files)
}


// ── Single backend ──────────────────────────────────────────────────────────

pub open spec fn has_backend(d: DeviceView, k: Seq<char>) -> bool {
    exists|i: int| 0 <= i < d.backends.len() && d.backends[i].name == k
}

/// Generates the file of one backend of the device: its name and contents.
/// Fails where the device has no backend of that name, or where the template
/// does not print.
pub fn generate_backend(device: &Device, backend_name: &str) -> (r: Result<(String, String), GenerateError>)
    requires
        has_backend(device@, backend_name@) ==> pascal_fits(backend_name@),
    ensures
        match r {
            Ok((f, c)) => has_backend(device@, backend_name@) && f@ == backend_file(backend_name@)
                && formatted(backend_source(backend_name@)) == Some(c@),
            Err(GenerateError::BackendNotRegistered(n)) => !has_backend(device@, backend_name@)
                && n@ == backend_name@,
            Err(GenerateError::Unprintable(f)) => has_backend(device@, backend_name@)
                && formatted(backend_source(backend_name@)) is None && f@ == backend_file(
                backend_name@,
            ),
        },
{
    let mut found = false;
    let mut i: usize = 0;
    while i < device.backends.len()
        invariant
            i <= device.backends@.len(),
            found ==> has_backend(device@, backend_name@),
            !found ==> forall|j: int| 0 <= j < i ==> device@.backends[j].name != backend_name@,
        decreases device.backends@.len() - i,
    {
        assert(device@.backends[i as int] == device.backends@[i as int]@);
        if same_text(device.backends[i].name.as_str(), backend_name) {
            found = true;
        }
        i = i + 1;
    }
    if !found {
        return Err(GenerateError::BackendNotRegistered(literal(backend_name)));
    }
    let stem = snake_with_suffix(backend_name, "backend");
    let name = rs_name(&stem);
    match backend_template(backend_name) {
        Some(c) => Ok((name, c)),
        None => Err(GenerateError::Unprintable(name)),
    }
}

// ── Module list ─────────────────────────────────────────────────────────────

/// The name without every trailing `.rs` (`str::trim_end_matches`).
pub open spec fn trim_rs(s: Seq<char>) -> Seq<char>
    decreases s.len(),
{
    if s.len() >= 3 && s.subrange(s.len() - 3, s.len() as int) == ".rs"@ {
        trim_rs(s.subrange(0, s.len() - 3))
    } else {
        s
    }
}

/// One `pub mod` line per generated file, in order.
pub open spec fn module_lines(names: Seq<Seq<char>>) -> Seq<char>
    decreases names.len(),
{
    if names.len() == 0 {
        Seq::empty()
    } else {
        module_lines(names.drop_last()) + "pub mod "@ + trim_rs(names.last()) + ";\n"@
    }
}

fn trimmed_rs(s: &String) -> (r: Vec<char>)
    ensures
        r@ == trim_rs(s@),
{
    let mut v = chars_of(s.as_str());
    proof {
        reveal_strlit(".rs");
    }
    while v.len() >= 3 && v[v.len() - 3] == '.' && v[v.len() - 2] == 'r' && v[v.len() - 1] == 's'
        invariant
            trim_rs(v@) == trim_rs(s@),
        decreases v@.len(),
    {
        let ghost before = v@;
        proof {
            reveal_strlit(".rs");
        }
        assert(before.subrange(before.len() - 3, before.len() as int) =~= ".rs"@);
        v.pop();
        v.pop();
        v.pop();
        assert(v@ =~= before.subrange(0, before.len() - 3));
    }
    proof {
        if v@.len() >= 3 && v@.subrange(v@.len() - 3, v@.len() as int) == ".rs"@ {
            assert(v@.subrange(v@.len() - 3, v@.len() as int)[0] == '.');
            assert(v@.subrange(v@.len() - 3, v@.len() as int)[1] == 'r');
            assert(v@.subrange(v@.len() - 3, v@.len() as int)[2] == 's');
        }
    }
    v
}

/// The `mod.rs` of the generated files: `pub mod <name>;` for each file,
/// named without its `.rs` extension.
pub fn module_declarations(files: &Vec<(String, String)>) -> (r: String)
    ensures
        r@ == module_lines(files@.map_values(|f: (String, String)| f.0@)),
{
    let ghost names = files@.map_values(|f: (String, String)| f.0@);
    let mut v: Vec<char> = Vec::new();
    let mut i: usize = 0;
    while i < files.len()
        invariant
            i <= files@.len(),
            names == files@.map_values(|f: (String, String)| f.0@),
            v@ == module_lines(names.take(i as int)),
        decreases files@.len() - i,
    {
        assert(names.take(i + 1).drop_last() =~= names.take(i as int));
        assert(names[i as int] == files@[i as int].0@);
        push_str(&mut v, "pub mod ");
        let mut stem = trimmed_rs(&files[i].0);
        v.append(&mut stem);
        push_str(&mut v, ";\n");
        i = i + 1;
    }
    assert(names.take(files@.len() as int) =~= names);
    string_from_chars(&v)
}

// ── Editing the description ─────────────────────────────────────────────────

/// A device named `name`, with `name_kernel` as its kernel on a synchronous,
/// unbounded bus lane, and no middleware or backends yet.
pub open spec fn spec_new_device(
    name: Seq<char>,
    state: Seq<char>,
    config: Seq<char>,
    bus: Seq<char>,
) -> DeviceView {
    DeviceView {
        name,
        state,
        config,
        middleware: Seq::empty(),
        kernel: KernelView {
            name: name + "_kernel"@,
            bus: BusLaneView { name: bus, lane_type: "sync"@, bound: "unbounded"@ },
        },
        backends: Seq::empty(),
    }
}

/// The device a `new device` command creates from its answers.
pub fn new_device(name: &str, state_name: &str, config_name: &str, bus_name: &str) -> (d: Device)
    ensures
        d@ == spec_new_device(name@, state_name@, config_name@, bus_name@),
{
    let mut k = chars_of(name);
    push_str(&mut k, "_kernel");
    let d = Device {
        name: literal(name),
        state: TypeName { name: literal(state_name) },
        config: TypeName { name: literal(config_name) },
        middleware: Vec::new(),
        kernel: Kernel {
            name: string_from_chars(&k),
            bus: BusLane {
                name: literal(bus_name),
                lane_type: literal("sync"),
                bound: literal("unbounded"),
            },
        },
        backends: Vec::new(),
    };
    assert(d@.middleware =~= Seq::<Seq<char>>::empty());
    assert(d@.backends =~= Seq::<BackendView>::empty());
    d
}

/// An edit of a device that the description does not have.
pub enum EditError {
    DeviceNotFound(String),
}

/// Adds a backend (with no peripheral access yet) to the first device named
/// `device_name`; returns the device's name.
pub fn add_backend(node: &mut ControlNode, device_name: &str, backend_name: String) -> (r: Result<String, EditError>)
    ensures
        match r {
            Ok(n) => {
                let i = device_index(old(node)@.devices, device_name@);
                &&& has_device(old(node)@.devices, device_name@)
                &&& n@ == device_name@
                &&& final(node)@.devices == old(node)@.devices.update(
                    i,
                    DeviceView {
                        backends: old(node)@.devices[i].backends.push(
                            BackendView { name: backend_name@, periph_access: None },
                        ),
                        ..old(node)@.devices[i]
                    },
                )
                &&& final(node)@.name == old(node)@.name
                &&& final(node)@.unresolved == old(node)@.unresolved
            },
            Err(EditError::DeviceNotFound(n)) => !has_device(old(node)@.devices, device_name@)
                && n@ == device_name@ && final(node)@ == old(node)@,
        },
{
    let ghost before = node@;
    let ghost i = device_index(before.devices, device_name@);
    let ghost bv = BackendView { name: backend_name@, periph_access: None };
    let ghost mut after_dev: DeviceView = before.devices[0];
    let r = match node.find_device_mut(device_name) {
        Some(device) => {
            let ghost d0 = *device;
            let dev_name = device.name.clone();
            assert(d0@ == before.devices[i]);
            device.backends.push(Backend { name: backend_name, periph_access: None });
            proof {
                assert(backends_view(device.backends@) =~= backends_view(d0.backends@).push(bv));
                assert(device@ == DeviceView { backends: d0@.backends.push(bv), ..d0@ });
                after_dev = device@;
            }
            Ok(dev_name)
        },
        None => Err(EditError::DeviceNotFound(literal(device_name))),
    };
    proof {
        if r is Ok {
            assert(after_dev == DeviceView { backends: before.devices[i].backends.push(bv), ..before.devices[i] });
            assert(devices_view(node.devices@) =~= before.devices.update(i, after_dev));
        }
    }
    r
}

/// Adds a middleware to the first device named `device_name`; returns the
/// device's name.
pub fn add_middleware(node: &mut ControlNode, device_name: &str, middleware_name: String) -> (r: Result<String, EditError>)
    ensures
        match r {
            Ok(n) => {
                let i = device_index(old(node)@.devices, device_name@);
                &&& has_device(old(node)@.devices, device_name@)
                &&& n@ == device_name@
                &&& final(node)@.devices == old(node)@.devices.update(
                    i,
                    DeviceView {
                        middleware: old(node)@.devices[i].middleware.push(middleware_name@),
                        ..old(node)@.devices[i]
                    },
                )
                &&& final(node)@.name == old(node)@.name
                &&& final(node)@.unresolved == old(node)@.unresolved
            },
            Err(EditError::DeviceNotFound(n)) => !has_device(old(node)@.devices, device_name@)
                && n@ == device_name@ && final(node)@ == old(node)@,
        },
{
    let ghost before = node@;
    let ghost i = device_index(before.devices, device_name@);
    let ghost mut after_dev: DeviceView = before.devices[0];
    let r = match node.find_device_mut(device_name) {
        Some(device) => {
            let ghost d0 = *device;
            let dev_name = device.name.clone();
            assert(d0@ == before.devices[i]);
            device.middleware.push(Middleware { name: middleware_name });
            proof {
                assert(middleware_view(device.middleware@) =~= middleware_view(d0.middleware@).push(
                    middleware_name@,
                ));
                assert(device@ == DeviceView {
                    middleware: d0@.middleware.push(middleware_name@),
                    ..d0@
                });
                after_dev = device@;
            }
            Ok(dev_name)
        },
        None => Err(EditError::DeviceNotFound(literal(device_name))),
    };
    proof {
        if r is Ok {
            assert(after_dev == DeviceView {
                middleware: before.devices[i].middleware.push(middleware_name@),
                ..before.devices[i]
            });
            assert(devices_view(node.devices@) =~= before.devices.update(i, after_dev));
        }
    }
    r
}

// ── Confirmation ────────────────────────────────────────────────────────────

/// Equal up to ASCII case (`str::eq_ignore_ascii_case`).
pub open spec fn eq_ignore_ascii_case(a: Seq<char>, b: Seq<char>) -> bool {
    a.len() == b.len() && forall|i: int| 0 <= i < a.len()
        ==> crate::casing::ascii_to_lower(#[trigger] a[i]) == crate::casing::ascii_to_lower(b[i])
}

fn lower_ascii(c: char) -> (r: char)
    ensures
        r == crate::casing::ascii_to_lower(c),
{
    if 'A' <= c && c <= 'Z' {
        let n: u32 = c as u32;
        let l: u8 = (n + 32) as u8;
        l as char
    } else {
        c
    }
}

fn same_ignoring_case(a: &str, b: &str) -> (r: bool)
    ensures
        r == eq_ignore_ascii_case(a@, b@),
{
    let x = chars_of(a);
    let y = chars_of(b);
    if x.len() != y.len() {
        return false;
    }
    let mut i: usize = 0;
    while i < x.len()
        invariant
            x@ == a@,
            y@ == b@,
            x@.len() == y@.len(),
            i <= x@.len(),
            forall|j: int| 0 <= j < i ==> crate::casing::ascii_to_lower(#[trigger] x@[j])
                == crate::casing::ascii_to_lower(y@[j]),
        decreases x@.len() - i,
    {
        if lower_ascii(x[i]) != lower_ascii(y[i]) {
            return false;
        }
        i = i + 1;
    }
    true
}

/// Whether the answer to "overwrite?" is yes: `y` or `yes`, in any case.
pub fn confirms_overwrite(answer: &str) -> (r: bool)
    ensures
        r == (eq_ignore_ascii_case(answer@, "y"@) || eq_ignore_ascii_case(answer@, "yes"@)),
{
    same_ignoring_case(answer, "y") || same_ignoring_case(answer, "yes")
}
} // verus!
