//! Generic hardware abstraction layer: bus lanes, the emergency-stop flag,
//! device state and configuration, fault classification, kernels and
//! middleware. Nothing here knows the concrete robot.

use vstd::prelude::*;
use vstd::string::StringSliceAdditionalSpecFns;
use core::sync::atomic::{AtomicBool, Ordering};

verus! {

// ── Bus primitives ──────────────────────────────────────────────────────────

/// A single-value channel between a kernel and a backend.
pub trait Lane<T> {
    fn write(&self, data: T);

    fn read(&self) -> Option<T>;
}

impl<T: Copy, L: Lane<T>> Lane<T> for &L {
    fn write(&self, data: T) {
        L::write(self, data);
    }

    /// What the referenced lane's own `read` gives.
    fn read(&self) -> (r: Option<T>)
        ensures
            call_ensures(L::read, (*self,), r),
    {
        L::read(self)
    }
}

/// Emergency-stop flag shared between tasks.
pub struct EstopFlag(AtomicBool);

impl EstopFlag {
    /// A cleared flag.
    pub fn new() -> Self {
        Self(AtomicBool::new(false))
    }

    /// Raises the flag (release ordering).
    pub fn set(&self) {
        self.0.store(true, Ordering::Release)
    }

    /// Reads the flag (acquire ordering). Any task may raise it at any time,
    /// so nothing is stated of the value read.
    pub fn is_set(&self) -> bool {
        self.0.load(Ordering::Acquire)
    }
}

/// The bus of a kernel: its emergency stop and the exchange of its state.
pub trait GenericBus<T: State> {
    fn estop(&self) -> &EstopFlag;

    fn update(&self, state: &mut T);

    fn write(&self, state: &T);
}

// ── Shared context / state types ────────────────────────────────────────────

pub enum KernelError {
    InitializationFailed,
}

pub trait State {}

pub trait Command {}

impl Command for () {}

pub trait Config {}

#[derive(Clone, Copy, Default, PartialEq, Eq, Structural)]
pub enum Mode {
    Disabled,
    #[default]
    Idle,
    Active,
    Faulted,
}

#[derive(Clone, Copy, PartialEq, Eq, Structural)]
pub enum Severity {
    Fault,
    Warning,
    Healthy,
}

/// `heapless::String`, a string of at most `N` bytes held inline.
#[verifier::external_type_specification]
#[verifier::external_body]
pub struct ExHeaplessString<const N: usize>(heapless::String<N>);

/// `Clone` of `heapless::String`; nothing is stated of the copy.
pub assume_specification<const N: usize>[ <heapless::String<N> as Clone>::clone ](
    s: &heapless::String<N>,
) -> heapless::String<N>;

/// The text of a fault message.
pub uninterp spec fn message_text(s: heapless::String<64>) -> Seq<char>;

/// Builds a message with `heapless::String::<64>::try_from`; the text fits
/// (at most 64 bytes), so the conversion cannot fail. The contract states
/// that the message holds exactly the text.
#[verifier::external_body]
pub(crate) fn message_from(text: &str) -> (m: heapless::String<64>)
    requires
        text.spec_bytes().len() <= 64,
    ensures
        message_text(m) == text@,
{
    heapless::String::try_from(text).unwrap()
}

/// An ASCII string is as many bytes long as it has characters.
pub(crate) proof fn lemma_ascii_len(s: &str)
    requires
        vstd::string::is_ascii(s),
    ensures
        s.spec_bytes().len() == s@.len(),
{
    vstd::string::is_ascii_spec_bytes(s);
}

/// An empty message, from `heapless::String::<64>::new`.
#[verifier::external_body]
pub(crate) fn empty_message() -> (m: heapless::String<64>)
    ensures
        message_text(m) == Seq::<char>::empty(),
{
    heapless::String::new()
}

#[derive(Clone, Default)]
pub struct DeviceState<F: State> {
    pub enabled: bool,
    pub mode: Mode,
    pub fault: Option<Fault>,
    pub custom: F,
}

#[derive(Clone, Default)]
pub struct DeviceConfig<C: Config> {
    pub name: heapless::String<64>,
    pub id: u8,
    pub tick_rate_hz: u32,
    pub custom: C,
}

#[derive(Clone)]
pub struct Fault {
    pub severity: Severity,
    pub message: heapless::String<64>,
}

/// A condition reported by a backend, classified into a fault.
pub trait Condition {
    fn classify<S: State>(&self, ctx: &DeviceState<S>) -> Fault;
}

/// The control loop of a device.
pub trait Kernel {
    type Config: Config;

    type State: State + Copy;

    fn init(&mut self, config: &Self::Config) -> Result<(), KernelError>;

    fn feedback(&self) -> Self::State;

    fn tick(&mut self);
}

/// Processing between commands, state and configuration of a device.
pub trait Middleware<S, C, Cmd> {
    fn process(&mut self, state: &mut S, config: &C);

    fn command(&mut self, cmd: Cmd, state: &mut S, config: &C);
}

#[derive(Default)]
pub struct NoMiddleware;

impl<S, C, Cmd> Middleware<S, C, Cmd> for NoMiddleware {
    fn process(&mut self, _state: &mut S, _config: &C) {
    }

    fn command(&mut self, _cmd: Cmd, _state: &mut S, _config: &C) {
    }
}

} // verus!
