//! The project description kept in `OREOS.toml`: the control node, its
//! devices and the components they are built from.

use vstd::prelude::*;
use crate::cli::scanner::{copy_opt_string, opt_string_view};
use crate::text::same_text;

verus! {

// ── Views ───────────────────────────────────────────────────────────────────

pub struct BusLaneView {
    pub name: Seq<char>,
    pub lane_type: Seq<char>,
    pub bound: Seq<char>,
}

pub struct KernelView {
    pub name: Seq<char>,
    pub bus: BusLaneView,
}

pub struct BackendView {
    pub name: Seq<char>,
    pub periph_access: Option<Seq<char>>,
}

pub struct DeviceView {
    pub name: Seq<char>,
    pub state: Seq<char>,
    pub config: Seq<char>,
    pub middleware: Seq<Seq<char>>,
    pub kernel: KernelView,
    pub backends: Seq<BackendView>,
}

pub struct UnresolvedView {
    pub uuid: u32,
    pub name: Seq<char>,
    pub kind: Seq<char>,
    pub source: Seq<char>,
}

pub struct NodeView {
    pub name: Seq<char>,
    pub devices: Seq<DeviceView>,
    pub unresolved: Seq<UnresolvedView>,
}

// ── Types ───────────────────────────────────────────────────────────────────

/// The whole project: its devices and the components found in code that no
/// device claims.
pub struct ControlNode {
    pub name: String,
    pub devices: Vec<Device>,
    pub unresolved: Vec<UnresolvedComponent>,
}

/// A component found in code that no device refers to.
pub struct UnresolvedComponent {
    pub uuid: u32,
    pub name: String,
    pub kind: String,
    pub source: String,
}

pub struct Device {
    pub name: String,
    pub state: TypeName,
    pub config: TypeName,
    pub middleware: Vec<Middleware>,
    pub kernel: Kernel,
    pub backends: Vec<Backend>,
}

pub struct Middleware {
    pub name: String,
}

pub struct Kernel {
    pub name: String,
    pub bus: BusLane,
}

pub struct BusLane {
    pub name: String,
    pub lane_type: String,
    pub bound: String,
}

pub struct Backend {
    pub name: String,
    pub periph_access: Option<String>,
}

pub struct TypeName {
    pub name: String,
}

impl View for TypeName {
    type V = Seq<char>;

    open spec fn view(&self) -> Seq<char> {
        self.name@
    }
}

impl View for Middleware {
    type V = Seq<char>;

    open spec fn view(&self) -> Seq<char> {
        self.name@
    }
}

impl View for BusLane {
    type V = BusLaneView;

    open spec fn view(&self) -> BusLaneView {
        BusLaneView { name: self.name@, lane_type: self.lane_type@, bound: self.bound@ }
    }
}

impl View for Kernel {
    type V = KernelView;

    open spec fn view(&self) -> KernelView {
        KernelView { name: self.name@, bus: self.bus@ }
    }
}

impl View for Backend {
    type V = BackendView;

    open spec fn view(&self) -> BackendView {
        BackendView { name: self.name@, periph_access: opt_string_view(self.periph_access) }
    }
}

pub open spec fn middleware_view(v: Seq<Middleware>) -> Seq<Seq<char>> {
    v.map_values(|m: Middleware| m@)
}

pub open spec fn backends_view(v: Seq<Backend>) -> Seq<BackendView> {
    v.map_values(|b: Backend| b@)
}

impl View for Device {
    type V = DeviceView;

    open spec fn view(&self) -> DeviceView {
        DeviceView {
            name: self.name@,
            state: self.state@,
            config: self.config@,
            middleware: middleware_view(self.middleware@),
            kernel: self.kernel@,
            backends: backends_view(self.backends@),
        }
    }
}

impl View for UnresolvedComponent {
    type V = UnresolvedView;

    open spec fn view(&self) -> UnresolvedView {
        UnresolvedView {
            uuid: self.uuid,
            name: self.name@,
            kind: self.kind@,
            source: self.source@,
        }
    }
}

pub open spec fn devices_view(v: Seq<Device>) -> Seq<DeviceView> {
    v.map_values(|d: Device| d@)
}

pub open spec fn unresolved_view(v: Seq<UnresolvedComponent>) -> Seq<UnresolvedView> {
    v.map_values(|u: UnresolvedComponent| u@)
}

impl View for ControlNode {
    type V = NodeView;

    open spec fn view(&self) -> NodeView {
        NodeView {
            name: self.name@,
            devices: devices_view(self.devices@),
            unresolved: unresolved_view(self.unresolved@),
        }
    }
}

// ── Device lookup ───────────────────────────────────────────────────────────

pub open spec fn has_device(d: Seq<DeviceView>, k: Seq<char>) -> bool {
    exists|i: int| 0 <= i < d.len() && d[i].name == k
}

/// `i` is the first position of a device named `k`.
pub open spec fn is_first_device(d: Seq<DeviceView>, k: Seq<char>, i: int) -> bool {
    &&& 0 <= i < d.len()
    &&& d[i].name == k
    &&& forall|j: int| 0 <= j < i ==> d[j].name != k
}

pub open spec fn device_index(d: Seq<DeviceView>, k: Seq<char>) -> int {
    choose|i: int| is_first_device(d, k, i)
}

proof fn lemma_first_device_unique(d: Seq<DeviceView>, k: Seq<char>, i: int)
    requires
        is_first_device(d, k, i),
    ensures
        has_device(d, k),
        device_index(d, k) == i,
{
    let j = device_index(d, k);
    assert(is_first_device(d, k, j));
    if j < i {
        assert(d[j].name != k);
    } else if i < j {
        assert(d[i].name != k);
    }
}

impl Default for ControlNode {
    /// A node with no name, no devices and nothing unresolved.
    fn default() -> (n: Self)
        ensures
            n@.name == Seq::<char>::empty(),
            n@.devices == Seq::<DeviceView>::empty(),
            n@.unresolved == Seq::<UnresolvedView>::empty(),
    {
        let n = ControlNode { name: String::new(), devices: Vec::new(), unresolved: Vec::new() };
        assert(n@.devices =~= Seq::<DeviceView>::empty());
        assert(n@.unresolved =~= Seq::<UnresolvedView>::empty());
        n
    }
}

impl ControlNode {
    fn device_position(&self, name: &str) -> (r: Option<usize>)
        ensures
            match r {
                Some(i) => i < self@.devices.len() && has_device(self@.devices, name@)
                    && device_index(self@.devices, name@) == i
                    && is_first_device(self@.devices, name@, i as int),
                None => !has_device(self@.devices, name@),
            },
    {
        let mut i: usize = 0;
        while i < self.devices.len()
            invariant
                i <= self.devices@.len(),
                forall|j: int| 0 <= j < i ==> self@.devices[j].name != name@,
            decreases self.devices@.len() - i,
        {
            if same_text(self.devices[i].name.as_str(), name) {
                proof {
                    assert(self@.devices[i as int].name == name@);
                    lemma_first_device_unique(self@.devices, name@, i as int);
                }
                return Some(i);
            }
            i = i + 1;
        }
        None
    }

    /// The first device named `name`.
    pub fn find_device(&self, name: &str) -> (r: Option<&Device>)
        ensures
            match r {
                Some(d) => has_device(self@.devices, name@)
                    && is_first_device(self@.devices, name@, device_index(self@.devices, name@))
                    && d@ == self@.devices[device_index(self@.devices, name@)],
                None => !has_device(self@.devices, name@),
            },
    {
        match self.device_position(name) {
            Some(i) => Some(&self.devices[i]),
            None => None,
        }
    }

    /// The first device named `name`, to change in place.
    pub fn find_device_mut(&mut self, name: &str) -> (r: Option<&mut Device>)
        ensures
            match r {
                Some(d) => {
                    &&& has_device(old(self)@.devices, name@)
                    &&& is_first_device(
                        old(self)@.devices,
                        name@,
                        device_index(old(self)@.devices, name@),
                    )
                    &&& *d == old(self).devices@[device_index(old(self)@.devices, name@)]
                    &&& final(self).devices@ == old(self).devices@.update(
                        device_index(old(self)@.devices, name@),
                        *final(d),
                    )
                    &&& final(self).name == old(self).name
                    &&& final(self).unresolved == old(self).unresolved
                },
                None => {
                    &&& !has_device(old(self)@.devices, name@)
                    &&& *final(self) == *old(self)
                },
            },
    {
        match self.device_position(name) {
            Some(i) => Some(&mut self.devices[i]),
            None => None,
        }
    }
}

} // verus!
