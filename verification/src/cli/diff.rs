//! What it takes to bring `OREOS.toml` in line with the metadata found in
//! code.

use vstd::prelude::*;
use crate::cli::scanner::{
    claimed_names, contains_string, entry_claims, is_claimed, has_name, strings_view, metas_view,
    Metadata, MetadataView, MetadataTable, ComponentPayload, PayloadView,
};
use crate::cli::scheme::{has_device, ControlNode, DeviceView};

verus! {

/// One step of a synchronisation.
pub enum SyncAction {
    /// A device in code that the description lacks.
    AddToToml(Metadata),
    /// A device in the description that code no longer has; it is kept.
    WarnDeleteBlocked(String),
    UpdateRefs(Metadata),
    /// A component in code that no device refers to.
    WarnDangling(Metadata),
    NoOp,
}

pub enum ActionView {
    AddToToml(MetadataView),
    WarnDeleteBlocked(Seq<char>),
    UpdateRefs(MetadataView),
    WarnDangling(MetadataView),
    NoOp,
}

impl View for SyncAction {
    type V = ActionView;

    open spec fn view(&self) -> ActionView {
        match self {
            SyncAction::AddToToml(m) => ActionView::AddToToml(m@),
            SyncAction::WarnDeleteBlocked(n) => ActionView::WarnDeleteBlocked(n@),
            SyncAction::UpdateRefs(m) => ActionView::UpdateRefs(m@),
            SyncAction::WarnDangling(m) => ActionView::WarnDangling(m@),
            SyncAction::NoOp => ActionView::NoOp,
        }
    }
}

pub open spec fn actions_view(v: Seq<SyncAction>) -> Seq<ActionView> {
    v.map_values(|a: SyncAction| a@)
}

pub open spec fn is_device_entry(m: MetadataView) -> bool {
    m.payload is Device
}

/// Devices in code (in table order) that the description does not have.
pub open spec fn pass_add(s: Seq<MetadataView>, devs: Seq<DeviceView>) -> Seq<ActionView>
    decreases s.len(),
{
    if s.len() == 0 {
        Seq::empty()
    } else {
        let r = pass_add(s.drop_last(), devs);
        let m = s.last();
        if is_device_entry(m) && !has_device(devs, m.name) {
            r.push(ActionView::AddToToml(m))
        } else {
            r
        }
    }
}

/// Components in code (in table order), other than devices, that no device
/// of `all` refers to.
pub open spec fn pass_dangling(s: Seq<MetadataView>, all: Seq<MetadataView>) -> Seq<ActionView>
    decreases s.len(),
{
    if s.len() == 0 {
        Seq::empty()
    } else {
        let r = pass_dangling(s.drop_last(), all);
        let m = s.last();
        if !is_device_entry(m) && !is_claimed(all, m.name) {
            r.push(ActionView::WarnDangling(m))
        } else {
            r
        }
    }
}

/// Devices of the description (in its order) that code does not have.
pub open spec fn pass_blocked(devs: Seq<DeviceView>, s: Seq<MetadataView>) -> Seq<ActionView>
    decreases devs.len(),
{
    if devs.len() == 0 {
        Seq::empty()
    } else {
        let r = pass_blocked(devs.drop_last(), s);
        let d = devs.last();
        if !has_name(s, d.name) {
            r.push(ActionView::WarnDeleteBlocked(d.name))
        } else {
            r
        }
    }
}

/// The actions of a synchronisation: additions, then dangling components,
/// then blocked deletions.
pub open spec fn spec_diff(s: Seq<MetadataView>, devs: Seq<DeviceView>) -> Seq<ActionView> {
    pass_add(s, devs) + pass_dangling(s, s) + pass_blocked(devs, s)
}

/// Compares the metadata found in code with the description: devices only
/// in code are to be added, components no device claims are dangling, and
/// devices only in the description are reported, not deleted.
pub fn diff(table: &MetadataTable, config: &ControlNode) -> (actions: Vec<SyncAction>)
    ensures
        actions_view(actions@) == spec_diff(table@, config@.devices),
{
    let mut actions: Vec<SyncAction> = Vec::new();
    let claimed = claimed_names(table);
    let entries = table.values();
    let ghost s = table@;
    let ghost devs = config@.devices;

    // Pass 1 — in code, not in the description.
    let mut i: usize = 0;
    while i < entries.len()
        invariant
            i <= entries@.len(),
            metas_view(entries@) == s,
            devs == config@.devices,
            actions_view(actions@) == pass_add(s.take(i as int), devs),
        decreases entries@.len() - i,
    {
        let meta = &entries[i];
        assert(s[i as int] == meta@);
        assert(s.take(i + 1).drop_last() =~= s.take(i as int));
        let is_device = match &meta.payload {
            ComponentPayload::Device { .. } => true,
            _ => false,
        };
        if is_device && config.find_device(meta.name.as_str()).is_none() {
            let ghost before = actions_view(actions@);
            actions.push(SyncAction::AddToToml(meta.clone()));
            assert(actions_view(actions@) =~= before.push(ActionView::AddToToml(meta@)));
        }
        i = i + 1;
    }
    assert(s.take(s.len() as int) =~= s);
    let ghost after_add = actions_view(actions@);

    // Pass 2 — in code, claimed by no device.
    let mut i: usize = 0;
    while i < entries.len()
        invariant
            i <= entries@.len(),
            metas_view(entries@) == s,
            forall|k: Seq<char>| strings_view(claimed@).contains(k) <==> is_claimed(s, k),
            actions_view(actions@) == after_add + pass_dangling(s.take(i as int), s),
        decreases entries@.len() - i,
    {
        let meta = &entries[i];
        assert(s[i as int] == meta@);
        assert(s.take(i + 1).drop_last() =~= s.take(i as int));
        let is_device = match &meta.payload {
            ComponentPayload::Device { .. } => true,
            _ => false,
        };
        if !is_device && !contains_string(&claimed, &meta.name) {
            let ghost before = actions_view(actions@);
            actions.push(SyncAction::WarnDangling(meta.clone()));
            assert(actions_view(actions@) =~= before.push(ActionView::WarnDangling(meta@)));
        }
        i = i + 1;
    }
    let ghost after_dangling = actions_view(actions@);

    // Pass 3 — in the description, not in code: reported, never deleted.
    let mut j: usize = 0;
    while j < config.devices.len()
        invariant
            j <= config.devices@.len(),
            devs == config@.devices,
            s == table@,
            actions_view(actions@) == after_dangling + pass_blocked(devs.take(j as int), s),
        decreases config.devices@.len() - j,
    {
        let device = &config.devices[j];
        assert(devs[j as int] == device@);
        assert(devs.take(j + 1).drop_last() =~= devs.take(j as int));
        assert(devs.take(j + 1).last() == devs[j as int]);
        let ghost prior = pass_blocked(devs.take(j as int), s);
        if !table.contains_key(device.name.as_str()) {
            let ghost before = actions_view(actions@);
            actions.push(SyncAction::WarnDeleteBlocked(device.name.clone()));
            assert(actions_view(actions@) =~= before.push(
                ActionView::WarnDeleteBlocked(device@.name),
            ));
            assert(after_dangling + prior.push(ActionView::WarnDeleteBlocked(device@.name))
                =~= (after_dangling + prior).push(ActionView::WarnDeleteBlocked(device@.name)));
        }
        j = j + 1;
    }
    assert(devs.take(devs.len() as int) =~= devs);
    assert(actions_view(actions@) =~= spec_diff(s, devs));
    actions
}


// ── Laws ────────────────────────────────────────────────────────────────────

/// Whether the payload is a device's that names `k` among its references:
/// its state, configuration, kernel bus, a backend or its middleware.
pub open spec fn device_payload_names(p: PayloadView, k: Seq<char>) -> bool {
    match p {
        PayloadView::Device { refs } => refs.state == k || refs.config == k || refs.kernel_bus == k
            || refs.backends.contains(k) || refs.middleware == Some(k),
        _ => false,
    }
}

/// Whether some device entry of `s` references `k`.
pub open spec fn referenced_by_a_device(s: Seq<MetadataView>, k: Seq<char>) -> bool {
    exists|j: int| 0 <= j < s.len() && device_payload_names((#[trigger] s[j]).payload, k)
}

proof fn lemma_push_contains<A>(s: Seq<A>, x: A, y: A)
    ensures
        s.push(x).contains(y) <==> (s.contains(y) || x == y),
{
    let q = s.push(x);
    if q.contains(y) {
        let i = choose|i: int| 0 <= i < q.len() && q[i] == y;
        if i < s.len() {
            assert(s[i] == y);
        }
    }
    if s.contains(y) {
        let i = choose|i: int| 0 <= i < s.len() && s[i] == y;
        assert(q[i] == y);
    }
    if x == y {
        assert(q[s.len() as int] == y);
    }
}

proof fn lemma_pass_dangling_has(t: Seq<MetadataView>, all: Seq<MetadataView>, m: MetadataView)
    ensures
        pass_dangling(t, all).contains(ActionView::WarnDangling(m)) <==> (t.contains(m) && !(
        m.payload is Device) && !is_claimed(all, m.name)),
    decreases t.len(),
{
    if t.len() > 0 {
        let u = t.drop_last();
        let x = t.last();
        lemma_pass_dangling_has(u, all, m);
        assert(t =~= u.push(x));
        lemma_push_contains(u, x, m);
        let r = pass_dangling(u, all);
        if !is_device_entry(x) && !is_claimed(all, x.name) {
            lemma_push_contains(r, ActionView::WarnDangling(x), ActionView::WarnDangling(m));
        }
    }
}

proof fn lemma_pass_add_no_dangling(s: Seq<MetadataView>, devs: Seq<DeviceView>, m: MetadataView)
    ensures
        !pass_add(s, devs).contains(ActionView::WarnDangling(m)),
    decreases s.len(),
{
    if s.len() > 0 {
        lemma_pass_add_no_dangling(s.drop_last(), devs, m);
        let r = pass_add(s.drop_last(), devs);
        if is_device_entry(s.last()) && !has_device(devs, s.last().name) {
            let q = r.push(ActionView::AddToToml(s.last()));
            if q.contains(ActionView::WarnDangling(m)) {
                let i = choose|i: int| 0 <= i < q.len() && q[i] == ActionView::WarnDangling(m);
                assert(r[i] == q[i]);
            }
        }
    }
}

proof fn lemma_pass_blocked_no_dangling(devs: Seq<DeviceView>, s: Seq<MetadataView>, m: MetadataView)
    ensures
        !pass_blocked(devs, s).contains(ActionView::WarnDangling(m)),
    decreases devs.len(),
{
    if devs.len() > 0 {
        lemma_pass_blocked_no_dangling(devs.drop_last(), s, m);
        let r = pass_blocked(devs.drop_last(), s);
        if !has_name(s, devs.last().name) {
            let q = r.push(ActionView::WarnDeleteBlocked(devs.last().name));
            if q.contains(ActionView::WarnDangling(m)) {
                let i = choose|i: int| 0 <= i < q.len() && q[i] == ActionView::WarnDangling(m);
                assert(r[i] == q[i]);
            }
        }
    }
}

/// A synchronisation reports as dangling exactly the entries of the table
/// that are not devices, whatever their kind (bus, state, configuration,
/// kernel, middleware, command or create), and whose name no device entry
/// references.
pub proof fn lemma_dangling_exactly_unreferenced(s: Seq<MetadataView>, devs: Seq<DeviceView>)
    ensures
        forall|m: MetadataView| #[trigger] spec_diff(s, devs).contains(ActionView::WarnDangling(m))
            <==> (s.contains(m) && !(m.payload is Device) && !referenced_by_a_device(s, m.name)),
{
    assert forall|m: MetadataView| #[trigger] spec_diff(s, devs).contains(ActionView::WarnDangling(m))
        <==> (s.contains(m) && !(m.payload is Device) && !referenced_by_a_device(s, m.name)) by {
        let a = ActionView::WarnDangling(m);
        let p1 = pass_add(s, devs);
        let p2 = pass_dangling(s, s);
        let p3 = pass_blocked(devs, s);
        lemma_pass_add_no_dangling(s, devs, m);
        lemma_pass_blocked_no_dangling(devs, s, m);
        lemma_pass_dangling_has(s, s, m);
        assert(is_claimed(s, m.name) <==> referenced_by_a_device(s, m.name)) by {
            if is_claimed(s, m.name) {
                let j = choose|j: int| 0 <= j < s.len() && entry_claims(#[trigger] s[j], m.name);
                assert(device_payload_names(s[j].payload, m.name));
            }
            if referenced_by_a_device(s, m.name) {
                let j = choose|j: int|
                    0 <= j < s.len() && device_payload_names((#[trigger] s[j]).payload, m.name);
                assert(entry_claims(s[j], m.name));
            }
        }
        let d = spec_diff(s, devs);
        assert(d == p1 + p2 + p3);
        if d.contains(a) {
            let i = choose|i: int| 0 <= i < d.len() && d[i] == a;
            if i < p1.len() {
                assert(p1[i] == a);
            } else if i < p1.len() + p2.len() {
                assert(p2[i - p1.len()] == a);
                assert(p2.contains(a));
            } else {
                assert(p3[i - p1.len() - p2.len()] == a);
            }
        }
        if p2.contains(a) {
            let i = choose|i: int| 0 <= i < p2.len() && p2[i] == a;
            assert(d[p1.len() + i] == a);
        }
    }
}

} // verus!
