//! Applies a synchronisation to the project description.

use vstd::prelude::*;
use crate::cli::scanner::{
    copy_strings, lookup, strings_view, BusLaneInfoView, ComponentPayload, DeviceRefsView,
    Metadata, MetadataTable, MetadataView, PayloadView,
};
use crate::cli::scheme::{
    backends_view, middleware_view, Backend, BackendView, BusLane, BusLaneView, ControlNode,
    Device, DeviceView, Kernel, KernelView, Middleware, TypeName, UnresolvedComponent,
    UnresolvedView, devices_view, unresolved_view,
};
use crate::cli::diff::{actions_view, ActionView, SyncAction};
use crate::text::{decimal, decimal_chars, push_str, string_from_chars};

verus! {

/// The lane of the bus named `k`: its first lane, under the bus's name.
pub open spec fn spec_resolve_bus(s: Seq<MetadataView>, k: Seq<char>) -> Option<BusLaneView> {
    match lookup(s, k) {
        Some(m) => match m.payload {
            PayloadView::Bus { lanes } => if lanes.len() > 0 {
                Some(BusLaneView { name: k, lane_type: lanes[0].lane_type, bound: lanes[0].bound })
            } else {
                None
            },
            _ => None,
        },
        None => None,
    }
}

/// Resolves the bus named `name` to the first of its lanes.
pub fn resolve_bus(name: &str, table: &MetadataTable) -> (r: Option<BusLane>)
    ensures
        match r {
            Some(b) => spec_resolve_bus(table@, name@) == Some(b@),
            None => spec_resolve_bus(table@, name@) is None,
        },
{
    let meta = match table.get(name) {
        Some(m) => m,
        None => return None,
    };
    let lanes = match &meta.payload {
        ComponentPayload::Bus { lanes } => lanes,
        _ => return None,
    };
    if lanes.len() == 0 {
        return None;
    }
    let first = &lanes[0];
    assert(meta@.payload == PayloadView::Bus { lanes: crate::cli::scanner::lanes_view(lanes@) });
    assert(crate::cli::scanner::lanes_view(lanes@)[0] == first@);
    Some(BusLane {
        name: string_of(name),
        lane_type: first.lane_type.clone(),
        bound: first.bound.clone(),
    })
}

fn string_of(s: &str) -> (r: String)
    ensures
        r@ == s@,
{
    s.to_owned()
}

pub open spec fn backend_of(name: Seq<char>) -> BackendView {
    BackendView { name, periph_access: None }
}

pub open spec fn middleware_list(m: Option<Seq<char>>) -> Seq<Seq<char>> {
    match m {
        Some(x) => seq![x],
        None => Seq::empty(),
    }
}

/// The device a metadata entry describes, with its kernel's bus resolved.
pub open spec fn spec_resolve_device(m: MetadataView, s: Seq<MetadataView>) -> Option<DeviceView> {
    match m.payload {
        PayloadView::Device { refs } => match spec_resolve_bus(s, refs.kernel_bus) {
            Some(bus) => Some(DeviceView {
                name: m.name,
                state: refs.state,
                config: refs.config,
                middleware: middleware_list(refs.middleware),
                kernel: KernelView { name: refs.kernel_bus, bus },
                backends: refs.backends.map_values(|b: Seq<char>| backend_of(b)),
            }),
            None => None,
        },
        _ => None,
    }
}

/// The device that `meta` describes; none unless it is a device whose
/// kernel bus is in the table with at least one lane.
pub fn resolve_device(meta: &Metadata, table: &MetadataTable) -> (r: Option<Device>)
    ensures
        match r {
            Some(d) => spec_resolve_device(meta@, table@) == Some(d@),
            None => spec_resolve_device(meta@, table@) is None,
        },
{
    let refs = match &meta.payload {
        ComponentPayload::Device { refs } => refs,
        _ => return None,
    };
    let bus = match resolve_bus(refs.kernel_bus.as_str(), table) {
        Some(b) => b,
        None => return None,
    };
    let mut backends: Vec<Backend> = Vec::new();
    let n = refs.backends.len();
    let mut i: usize = 0;
    while i < n
        invariant
            n == refs.backends@.len(),
            i <= n,
            backends@.len() == i,
            forall|j: int| 0 <= j < i ==> (#[trigger] backends@[j])@ == backend_of(refs.backends@[j]@),
        decreases n - i,
    {
        backends.push(Backend { name: refs.backends[i].clone(), periph_access: None });
        i = i + 1;
    }
    assert(backends_view(backends@) =~= strings_view(refs.backends@).map_values(
        |b: Seq<char>| backend_of(b),
    ));
    let mut middleware: Vec<Middleware> = Vec::new();
    match &refs.middleware {
        Some(m) => {
            middleware.push(Middleware { name: m.clone() });
        },
        None => {},
    }
    assert(middleware_view(middleware@) =~= middleware_list(refs@.middleware));
    let d = Device {
        name: meta.name.clone(),
        state: TypeName { name: refs.state.clone() },
        config: TypeName { name: refs.config.clone() },
        kernel: Kernel { name: refs.kernel_bus.clone(), bus },
        backends,
        middleware,
    };
    assert(d@ == spec_resolve_device(meta@, table@)->0);
    Some(d)
}

/// The name of a component's kind, as the description records it.
pub open spec fn kind_text(p: PayloadView) -> Seq<char> {
    match p {
        PayloadView::Device { .. } => "device"@,
        PayloadView::Bus { .. } => "bus"@,
        PayloadView::State => "state"@,
        PayloadView::Config => "config"@,
        PayloadView::Kernel { .. } => "kernel"@,
        PayloadView::Middleware => "middleware"@,
        PayloadView::Command => "command"@,
        PayloadView::Create { .. } => "create"@,
    }
}

/// The name of a component's kind.
pub fn kind_str(payload: &ComponentPayload) -> (r: String)
    ensures
        r@ == kind_text(payload@),
{
    match payload {
        ComponentPayload::Device { .. } => string_of("device"),
        ComponentPayload::Bus { .. } => string_of("bus"),
        ComponentPayload::State => string_of("state"),
        ComponentPayload::Config => string_of("config"),
        ComponentPayload::Kernel { .. } => string_of("kernel"),
        ComponentPayload::Middleware => string_of("middleware"),
        ComponentPayload::Command => string_of("command"),
        ComponentPayload::Create { .. } => string_of("create"),
    }
}

pub open spec fn added_message(name: Seq<char>) -> Seq<char> {
    "Added device '"@ + name + "'"@
}

pub open spec fn dangling_message(name: Seq<char>) -> Seq<char> {
    "Registered '"@ + name + "' as unresolved (dangling)"@
}

pub open spec fn blocked_message(name: Seq<char>) -> Seq<char> {
    name + " — remove from code first"@
}

/// Where a component is declared, as `file:line`.
pub open spec fn source_text(m: MetadataView) -> Seq<char> {
    m.source.file + ":"@ + decimal(m.source.line as nat)
}

pub open spec fn unresolved_of(m: MetadataView) -> UnresolvedView {
    UnresolvedView { uuid: m.uuid, name: m.name, kind: kind_text(m.payload), source: source_text(m) }
}

/// What one action adds: devices, unresolved components, and log lines.
pub open spec fn apply_step(a: ActionView, s: Seq<MetadataView>) -> (
    Seq<DeviceView>,
    Seq<UnresolvedView>,
    Seq<Seq<char>>,
) {
    match a {
        ActionView::AddToToml(m) => match spec_resolve_device(m, s) {
            Some(d) => (seq![d], Seq::empty(), seq![added_message(m.name)]),
            None => (Seq::empty(), Seq::empty(), Seq::empty()),
        },
        ActionView::WarnDangling(m) => (
            Seq::empty(),
            seq![unresolved_of(m)],
            seq![dangling_message(m.name)],
        ),
        ActionView::WarnDeleteBlocked(n) => (Seq::empty(), Seq::empty(), seq![blocked_message(n)]),
        _ => (Seq::empty(), Seq::empty(), Seq::empty()),
    }
}

/// What a list of actions adds, in order.
pub open spec fn apply_all(acts: Seq<ActionView>, s: Seq<MetadataView>) -> (
    Seq<DeviceView>,
    Seq<UnresolvedView>,
    Seq<Seq<char>>,
)
    decreases acts.len(),
{
    if acts.len() == 0 {
        (Seq::empty(), Seq::empty(), Seq::empty())
    } else {
        let (d, u, l) = apply_all(acts.drop_last(), s);
        let (d1, u1, l1) = apply_step(acts.last(), s);
        (d + d1, u + u1, l + l1)
    }
}

fn source_string(meta: &Metadata) -> (r: String)
    ensures
        r@ == source_text(meta@),
{
    let mut v: Vec<char> = Vec::new();
    push_str(&mut v, meta.source.file.as_str());
    push_str(&mut v, ":");
    let mut digits = decimal_chars(meta.source.line);
    v.append(&mut digits);
    string_from_chars(&v)
}

fn message(prefix: &str, name: &str, suffix: &str) -> (r: String)
    ensures
        r@ == prefix@ + name@ + suffix@,
{
    let mut v: Vec<char> = Vec::new();
    push_str(&mut v, prefix);
    push_str(&mut v, name);
    push_str(&mut v, suffix);
    string_from_chars(&v)
}

/// Applies the actions to the description: resolvable new devices are added,
/// dangling components are registered as unresolved, and blocked deletions
/// only reported. Returns the lines to report, in order.
pub fn apply(actions: &[SyncAction], config: &mut ControlNode, table: &MetadataTable) -> (log: Vec<String>)
    ensures
        final(config)@.name == old(config)@.name,
        final(config)@.devices == old(config)@.devices + apply_all(actions_view(actions@), table@).0,
        final(config)@.unresolved == old(config)@.unresolved + apply_all(actions_view(actions@), table@).1,
        strings_view(log@) == apply_all(actions_view(actions@), table@).2,
{
    let ghost acts = actions_view(actions@);
    let ghost s = table@;
    let ghost d0 = old(config)@.devices;
    let ghost u0 = old(config)@.unresolved;
    let mut log: Vec<String> = Vec::new();
    let mut i: usize = 0;
    while i < actions.len()
        invariant
            i <= actions@.len(),
            acts == actions_view(actions@),
            s == table@,
            config@.name == old(config)@.name,
            config@.devices == d0 + apply_all(acts.take(i as int), s).0,
            config@.unresolved == u0 + apply_all(acts.take(i as int), s).1,
            strings_view(log@) == apply_all(acts.take(i as int), s).2,
        decreases actions@.len() - i,
    {
        let ghost pd = config@.devices;
        let ghost pu = config@.unresolved;
        let ghost pl = strings_view(log@);
        assert(acts.take(i + 1).drop_last() =~= acts.take(i as int));
        assert(acts.take(i + 1).last() == actions@[i as int]@);
        match &actions[i] {
            SyncAction::AddToToml(meta) => {
                match resolve_device(meta, table) {
                    Some(device) => {
                        let ghost dv = device@;
                        config.devices.push(device);
                        log.push(message("Added device '", meta.name.as_str(), "'"));
                        assert(config@.devices =~= pd.push(dv));
                        assert(strings_view(log@) =~= pl.push(added_message(meta@.name)));
                    },
                    None => {},
                }
            },
            SyncAction::WarnDangling(meta) => {
                let u = UnresolvedComponent {
                    uuid: meta.uuid,
                    name: meta.name.clone(),
                    kind: kind_str(&meta.payload),
                    source: source_string(meta),
                };
                let ghost uv = u@;
                config.unresolved.push(u);
                log.push(message("Registered '", meta.name.as_str(), "' as unresolved (dangling)"));
                assert(config@.unresolved =~= pu.push(uv));
                assert(strings_view(log@) =~= pl.push(dangling_message(meta@.name)));
            },
            SyncAction::WarnDeleteBlocked(name) => {
                log.push(message("", name.as_str(), " — remove from code first"));
                assert(""@ =~= Seq::<char>::empty()) by {
                    reveal_strlit("");
                }
                assert(strings_view(log@) =~= pl.push(blocked_message(name@)));
            },
            _ => {},
        }
        assert(config@.devices =~= d0 + apply_all(acts.take(i + 1), s).0);
        assert(config@.unresolved =~= u0 + apply_all(acts.take(i + 1), s).1);
        assert(strings_view(log@) =~= apply_all(acts.take(i + 1), s).2);
        i = i + 1;
    }
    assert(acts.take(actions@.len() as int) =~= acts);
    log
}

} // verus!
