use vstd::prelude::*;
use crate::handles::{Counter, Gauge, Histogram};
use crate::key::{Key, Unit};

verus! {

/// The receiving side of the facade: a backend that takes descriptions and
/// registrations and hands out live handles, and applies updates made
/// through them.
pub trait Recorder {
    /// Attaches a unit and a description to a counter.
    fn describe_counter(&self, key: &Key, unit: Option<Unit>, description: Option<String>);

    /// Attaches a unit and a description to a gauge.
    fn describe_gauge(&self, key: &Key, unit: Option<Unit>, description: Option<String>);

    /// Attaches a unit and a description to a histogram.
    fn describe_histogram(&self, key: &Key, unit: Option<Unit>, description: Option<String>);

    /// A handle to the counter under `key`, created if absent.
    fn register_counter(&self, key: &Key) -> Counter;

    /// A handle to the gauge under `key`, created if absent.
    fn register_gauge(&self, key: &Key) -> Gauge;

    /// A handle to the histogram under `key`, created if absent.
    fn register_histogram(&self, key: &Key) -> Histogram;

    /// Adds `by` to the counter behind `h`.
    fn increment_counter(&self, h: &Counter, by: u64);

    /// Sets the gauge behind `h` to the floating-point value with bit pattern `bits`.
    fn set_gauge(&self, h: &Gauge, bits: u64);

    /// Appends the sample with bit pattern `bits` to the histogram behind `h`.
    fn record_histogram(&self, h: &Histogram, bits: u64);
}

/// A recorder that ignores every description and update and hands out
/// handles that point nowhere. It stands in while no recorder is installed.
#[derive(Clone, Copy, Debug, PartialEq, Eq, Structural)]
pub struct NoopRecorder;

impl Recorder for NoopRecorder {
    fn describe_counter(&self, _key: &Key, _unit: Option<Unit>, _description: Option<String>) {
    }

    fn describe_gauge(&self, _key: &Key, _unit: Option<Unit>, _description: Option<String>) {
    }

    fn describe_histogram(&self, _key: &Key, _unit: Option<Unit>, _description: Option<String>) {
    }

    fn register_counter(&self, _key: &Key) -> (r: Counter)
        ensures
            r.slot is None,
    {
        Counter::noop()
    }

    fn register_gauge(&self, _key: &Key) -> (r: Gauge)
        ensures
            r.slot is None,
    {
        Gauge::noop()
    }

    fn register_histogram(&self, _key: &Key) -> (r: Histogram)
        ensures
            r.slot is None,
    {
        Histogram::noop()
    }

    fn increment_counter(&self, _h: &Counter, _by: u64) {
    }

    fn set_gauge(&self, _h: &Gauge, _bits: u64) {
    }

    fn record_histogram(&self, _h: &Histogram, _bits: u64) {
    }
}

/// The error of an install into a slot that already holds a recorder.
#[derive(Clone, Copy, Debug, PartialEq, Eq, Structural)]
pub struct SetRecorderError;

impl SetRecorderError {
    /// The message that describes the error.
    pub fn message(&self) -> (r: &'static str)
        ensures
            r@ == "attempted to set a recorder after the metrics system was already initialized"@,
    {
        proof {
            reveal_strlit("attempted to set a recorder after the metrics system was already initialized");
        }
        "attempted to set a recorder after the metrics system was already initialized"
    }
}

/// Relies on `Box::leak`: the reference points at the value the box held,
/// which then lives for the rest of the process.
#[verifier::external_body]
fn leak<R: 'static>(b: Box<R>) -> (r: &'static R)
    ensures
        *r == *b,
{
    Box::leak(b)
}

/// A recorder offered for installation: one that already lives for the
/// whole process, or an owned one whose lifetime is extended to the
/// process's only if the install succeeds (else it is dropped).
pub enum RecorderVariant<R: 'static> {
    Static(&'static R),
    Boxed(Box<R>),
}

impl<R: 'static> RecorderVariant<R> {
    /// The recorder that installing this variant publishes.
    pub open spec fn target(&self) -> R {
        match self {
            RecorderVariant::Static(r) => **r,
            RecorderVariant::Boxed(b) => **b,
        }
    }

    pub fn from_static(recorder: &'static R) -> (r: Self)
        ensures
            r == RecorderVariant::Static(recorder),
            r.target() == *recorder,
    {
        RecorderVariant::Static(recorder)
    }

    pub fn from_boxed(recorder: Box<R>) -> (r: Self)
        ensures
            r == RecorderVariant::<R>::Boxed(recorder),
            r.target() == *recorder,
    {
        RecorderVariant::Boxed(recorder)
    }

    /// A reference to the recorder that lives for the rest of the process.
    pub fn into_recorder_ref(self) -> (r: &'static R)
        ensures
            *r == self.target(),
    {
        match self {
            RecorderVariant::Static(recorder) => recorder,
            RecorderVariant::Boxed(recorder) => leak(recorder),
        }
    }
}

/// The three states of a recorder slot.
#[derive(Clone, Copy, Debug, PartialEq, Eq, Structural)]
pub enum SlotState {
    Uninitialized,
    Initializing,
    Initialized,
}

/// What a recorder slot shows to readers: its state and the recorder that
/// a load returns.
pub struct SlotView<R> {
    pub state: SlotState,
    pub installed: Option<R>,
}

/// A slot that is ready for its first install.
pub open spec fn fresh_slot<R>() -> SlotView<R> {
    SlotView { state: SlotState::Uninitialized, installed: None }
}

/// One install attempt of `r`: it succeeds, and publishes `r`, only on an
/// uninitialized slot; otherwise the slot stays as it was.
pub open spec fn install_step<R>(s: SlotView<R>, r: R) -> (SlotView<R>, bool) {
    if s.state == SlotState::Uninitialized {
        (SlotView { state: SlotState::Initialized, installed: Some(r) }, true)
    } else {
        (s, false)
    }
}

/// Install attempts of each recorder of `rs` in turn: the final slot and
/// whether each attempt succeeded.
pub open spec fn install_all<R>(s: SlotView<R>, rs: Seq<R>) -> (SlotView<R>, Seq<bool>)
    decreases rs.len(),
{
    if rs.len() == 0 {
        (s, Seq::empty())
    } else {
        let (s1, ok) = install_step(s, rs[0]);
        let (s2, oks) = install_all(s1, rs.drop_first());
        (s2, seq![ok].add(oks))
    }
}

/// A set-once cell that holds the installed recorder.
pub struct RecorderOnceCell<R: 'static> {
    recorder: Option<&'static R>,
    state: SlotState,
}

impl<R: 'static> View for RecorderOnceCell<R> {
    type V = SlotView<R>;

    closed spec fn view(&self) -> SlotView<R> {
        SlotView {
            state: self.state,
            installed: if self.state == SlotState::Initialized {
                match self.recorder {
                    Some(r) => Some(*r),
                    None => None,
                }
            } else {
                None
            },
        }
    }
}

impl<R: 'static> RecorderOnceCell<R> {
    /// Between operations a slot is never caught initializing, and an
    /// initialized slot holds a recorder.
    pub closed spec fn wf(&self) -> bool {
        &&& self.state != SlotState::Initializing
        &&& self.state == SlotState::Initialized ==> self.recorder is Some
    }

    /// An uninitialized slot.
    pub fn new() -> (r: Self)
        ensures
            r.wf(),
            r@ == fresh_slot::<R>(),
    {
        RecorderOnceCell { recorder: None, state: SlotState::Uninitialized }
    }

    /// Moves an uninitialized slot to initializing, which gives the caller
    /// the sole right to write the recorder; tells whether it did.
    fn begin_install(&mut self) -> (r: bool)
        ensures
            r == (old(self).state == SlotState::Uninitialized),
            r ==> final(self).state == SlotState::Initializing && final(self).recorder
                == old(self).recorder,
            !r ==> *final(self) == *old(self),
    {
        if self.state == SlotState::Uninitialized {
            self.state = SlotState::Initializing;
            true
        } else {
            false
        }
    }

    /// Installs the recorder of `variant` if the slot is uninitialized; else
    /// fails, leaves the slot as it was and drops `variant`.
    pub fn set(&mut self, variant: RecorderVariant<R>) -> (r: Result<(), SetRecorderError>)
        requires
            old(self).wf(),
        ensures
            final(self).wf(),
            (final(self)@, r is Ok) == install_step(old(self)@, variant.target()),
            r is Err ==> *final(self) == *old(self),
    {
        if self.begin_install() {
            self.recorder = Some(variant.into_recorder_ref());
            self.state = SlotState::Initialized;
            Ok(())
        } else {
            Err(SetRecorderError)
        }
    }

    /// Resets the slot to uninitialized, so that a later install can
    /// succeed. The recorder that was installed is not freed: references to
    /// it that were handed out stay valid.
    pub fn clear(&mut self)
        requires
            old(self).wf(),
        ensures
            final(self).wf(),
            final(self)@ == fresh_slot::<R>(),
    {
        self.state = SlotState::Uninitialized;
    }

    /// The installed recorder, if the slot is initialized.
    pub fn try_load(&self) -> (r: Option<&'static R>)
        requires
            self.wf(),
        ensures
            r matches Some(x) ==> self@.installed == Some(*x),
            r is None ==> self@.installed is None,
    {
        if self.state != SlotState::Initialized {
            None
        } else {
            self.recorder
        }
    }
}

/// The recorder that calls go to: the installed one, or a no-op recorder
/// while none is installed.
pub enum RecorderRef<R: 'static> {
    Installed(&'static R),
    Noop(NoopRecorder),
}

/// The recorder that a slot in state `s` directs calls to.
pub open spec fn current_of<R>(s: SlotView<R>) -> Option<R> {
    s.installed
}

impl<R: 'static> RecorderRef<R> {
    /// The installed recorder this refers to, or `None` for the no-op one.
    pub open spec fn target(&self) -> Option<R> {
        match self {
            RecorderRef::Installed(r) => Some(**r),
            RecorderRef::Noop(_) => None,
        }
    }
}

impl<R: Recorder + 'static> Recorder for RecorderRef<R> {
    fn describe_counter(&self, key: &Key, unit: Option<Unit>, description: Option<String>) {
        match self {
            RecorderRef::Installed(r) => r.describe_counter(key, unit, description),
            RecorderRef::Noop(n) => n.describe_counter(key, unit, description),
        }
    }

    fn describe_gauge(&self, key: &Key, unit: Option<Unit>, description: Option<String>) {
        match self {
            RecorderRef::Installed(r) => r.describe_gauge(key, unit, description),
            RecorderRef::Noop(n) => n.describe_gauge(key, unit, description),
        }
    }

    fn describe_histogram(&self, key: &Key, unit: Option<Unit>, description: Option<String>) {
        match self {
            RecorderRef::Installed(r) => r.describe_histogram(key, unit, description),
            RecorderRef::Noop(n) => n.describe_histogram(key, unit, description),
        }
    }

    fn register_counter(&self, key: &Key) -> (r: Counter)
        ensures
            self.target() is None ==> r.slot is None,
    {
        match self {
            RecorderRef::Installed(r) => r.register_counter(key),
            RecorderRef::Noop(n) => n.register_counter(key),
        }
    }

    fn register_gauge(&self, key: &Key) -> (r: Gauge)
        ensures
            self.target() is None ==> r.slot is None,
    {
        match self {
            RecorderRef::Installed(r) => r.register_gauge(key),
            RecorderRef::Noop(n) => n.register_gauge(key),
        }
    }

    fn register_histogram(&self, key: &Key) -> (r: Histogram)
        ensures
            self.target() is None ==> r.slot is None,
    {
        match self {
            RecorderRef::Installed(r) => r.register_histogram(key),
            RecorderRef::Noop(n) => n.register_histogram(key),
        }
    }

    fn increment_counter(&self, h: &Counter, by: u64) {
        match self {
            RecorderRef::Installed(r) => r.increment_counter(h, by),
            RecorderRef::Noop(n) => n.increment_counter(h, by),
        }
    }

    fn set_gauge(&self, h: &Gauge, bits: u64) {
        match self {
            RecorderRef::Installed(r) => r.set_gauge(h, bits),
            RecorderRef::Noop(n) => n.set_gauge(h, bits),
        }
    }

    fn record_histogram(&self, h: &Histogram, bits: u64) {
        match self {
            RecorderRef::Installed(r) => r.record_histogram(h, bits),
            RecorderRef::Noop(n) => n.record_histogram(h, bits),
        }
    }
}

/// Installs a recorder that lives for the whole process into `slot`; fails
/// if the slot already holds one.
pub fn set_recorder<R: 'static>(slot: &mut RecorderOnceCell<R>, recorder: &'static R) -> (r:
    Result<(), SetRecorderError>)
    requires
        old(slot).wf(),
    ensures
        final(slot).wf(),
        (final(slot)@, r is Ok) == install_step(old(slot)@, *recorder),
{
    slot.set(RecorderVariant::from_static(recorder))
}

/// Installs an owned recorder into `slot`, extending its life to the
/// process's; fails, and drops it, if the slot already holds one.
pub fn set_boxed_recorder<R: 'static>(slot: &mut RecorderOnceCell<R>, recorder: Box<R>) -> (r:
    Result<(), SetRecorderError>)
    requires
        old(slot).wf(),
    ensures
        final(slot).wf(),
        (final(slot)@, r is Ok) == install_step(old(slot)@, *recorder),
{
    slot.set(RecorderVariant::from_boxed(recorder))
}

/// Empties `slot`, so that a later install can succeed. The exclusive borrow
/// stands for the guarantee that nobody loads or installs meanwhile.
pub fn clear_recorder<R: 'static>(slot: &mut RecorderOnceCell<R>)
    requires
        old(slot).wf(),
    ensures
        final(slot).wf(),
        final(slot)@ == fresh_slot::<R>(),
{
    slot.clear()
}

/// The recorder installed in `slot`, if any.
pub fn try_recorder<R: 'static>(slot: &RecorderOnceCell<R>) -> (r: Option<&'static R>)
    requires
        slot.wf(),
    ensures
        r matches Some(x) ==> slot@.installed == Some(*x),
        r is None ==> slot@.installed is None,
{
    slot.try_load()
}

/// The recorder installed in `slot`, or a no-op recorder if there is none.
pub fn recorder<R: 'static>(slot: &RecorderOnceCell<R>) -> (r: RecorderRef<R>)
    requires
        slot.wf(),
    ensures
        r.target() == current_of(slot@),
{
    match slot.try_load() {
        Some(x) => RecorderRef::Installed(x),
        None => RecorderRef::Noop(NoopRecorder),
    }
}

/// Once a slot is initialized, every further install attempt fails and
/// leaves the slot as it is.
pub proof fn lemma_initialized_slot_refuses<R>(s: SlotView<R>, rs: Seq<R>)
    requires
        s.state == SlotState::Initialized,
    ensures
        install_all(s, rs).0 == s,
        install_all(s, rs).1.len() == rs.len(),
        forall|i: int| 0 <= i < rs.len() ==> !#[trigger] install_all(s, rs).1[i],
    decreases rs.len(),
{
    if rs.len() > 0 {
        lemma_initialized_slot_refuses(s, rs.drop_first());
        let oks = install_all(s, rs.drop_first()).1;
        assert forall|i: int| 0 <= i < rs.len() implies !#[trigger] install_all(s, rs).1[i] by {
            if i > 0 {
                assert(install_all(s, rs).1[i] == oks[i - 1]);
            }
        }
    }
}

/// Of any sequence of install attempts on a fresh slot, exactly the first
/// succeeds, every later one fails, and the slot keeps the first recorder.
pub proof fn lemma_only_first_install_succeeds<R>(rs: Seq<R>)
    requires
        rs.len() > 0,
    ensures
        install_all(fresh_slot::<R>(), rs).1.len() == rs.len(),
        install_all(fresh_slot::<R>(), rs).1[0],
        forall|i: int| 1 <= i < rs.len() ==> !#[trigger] install_all(fresh_slot::<R>(), rs).1[i],
        install_all(fresh_slot::<R>(), rs).0.state == SlotState::Initialized,
        install_all(fresh_slot::<R>(), rs).0.installed == Some(rs[0]),
{
    let s1 = install_step(fresh_slot::<R>(), rs[0]).0;
    lemma_initialized_slot_refuses(s1, rs.drop_first());
    let oks = install_all(s1, rs.drop_first()).1;
    assert forall|i: int| 1 <= i < rs.len() implies !#[trigger] install_all(
        fresh_slot::<R>(),
        rs,
    ).1[i] by {
        assert(install_all(fresh_slot::<R>(), rs).1[i] == oks[i - 1]);
    }
}

/// After a successful install the current recorder is the one installed;
/// before any install there is no installed one, and calls go to the no-op
/// recorder.
pub proof fn lemma_current_after_install<R>(s: SlotView<R>, r: R)
    ensures
        current_of(fresh_slot::<R>()) is None,
        install_step(s, r).1 ==> current_of(install_step(s, r).0) == Some(r),
{
}

/// Along a chain of slot states where each step is one install attempt,
/// every state after the first successful attempt on a fresh slot holds
/// that first recorder.
proof fn lemma_installed_stays<R>(vs: Seq<SlotView<R>>, rs: Seq<R>, oks: Seq<bool>, j: int)
    requires
        rs.len() >= 1,
        vs.len() == rs.len() + 1,
        oks.len() == rs.len(),
        vs[0] == fresh_slot::<R>(),
        forall|t: int| 0 <= t < rs.len() ==> (vs[t + 1], oks[t]) == install_step(#[trigger] vs[t], rs[t]),
        1 <= j <= rs.len(),
    ensures
        vs[j] == (SlotView { state: SlotState::Initialized, installed: Some(rs[0]) }),
        forall|t: int| 1 <= t < j ==> !#[trigger] oks[t],
    decreases j,
{
    if j > 1 {
        lemma_installed_stays(vs, rs, oks, j - 1);
        assert((vs[j], oks[j - 1]) == install_step(vs[j - 1], rs[j - 1]));
    } else {
        assert((vs[1], oks[0]) == install_step(vs[0], rs[0]));
    }
}

/// Calling `set` (or `set_recorder`, `set_boxed_recorder`) on a fresh slot
/// with the recorders `rs` in turn, where `vs` are the slot's states between
/// the calls and `oks` tells which calls returned `Ok`: exactly the first
/// call succeeds, and afterwards the slot holds the first recorder.
pub proof fn lemma_install_sequence<R>(vs: Seq<SlotView<R>>, rs: Seq<R>, oks: Seq<bool>)
    requires
        rs.len() >= 1,
        vs.len() == rs.len() + 1,
        oks.len() == rs.len(),
        vs[0] == fresh_slot::<R>(),
        forall|t: int| 0 <= t < rs.len() ==> (vs[t + 1], oks[t]) == install_step(#[trigger] vs[t], rs[t]),
    ensures
        oks[0],
        forall|t: int| 1 <= t < rs.len() ==> !#[trigger] oks[t],
        vs[rs.len() as int].state == SlotState::Initialized,
        vs[rs.len() as int].installed == Some(rs[0]),
{
    assert((vs[1], oks[0]) == install_step(vs[0], rs[0]));
    lemma_installed_stays(vs, rs, oks, rs.len() as int);
    if rs.len() > 1 {
        let n = rs.len() as int;
        assert((vs[n], oks[n - 1]) == install_step(vs[n - 1], rs[n - 1]));
        lemma_installed_stays(vs, rs, oks, n - 1);
    }
}

} // verus!
