use vstd::prelude::*;
use crate::capability::CorProfilerCallbackVtbl;
use crate::capability::table_contains;
use crate::events::NotificationEvent;
use crate::facade::MetadataImportTrait;
use crate::facade::ProfilerInfoApi;
use crate::guid::Guid;
use crate::handler::ProfilerHandler;
use crate::{CLASS_E_CLASSNOTAVAILABLE, E_FAIL, E_NOINTERFACE, Hresult, S_OK};

verus! {

/// The event-mask request sent to the info provider at initialization:
/// every notification category switched on.
pub const COR_PRF_ALL: u64 = 0x8003FFFF;

/// The outcome of one notification entry point: the status code handed back
/// to the host, and the event for the telemetry queue, if the notification
/// produced one. Handing the event to the real queue is the caller's
/// non-blocking send; a full or torn-down queue never changes the status.
pub struct DispatchOutcome {
    pub status: Hresult,
    pub event: Option<NotificationEvent>,
}

/// Replaces a failed context lookup with the placeholder the telemetry path
/// shows; a lookup failure must not abort the notification.
pub fn name_or_unknown(r: Result<String, Hresult>) -> (name: String)
    ensures
        r matches Ok(n) ==> name == n,
        r matches Err(_) ==> name@ == "Unknown"@,
{
    match r {
        Ok(n) => n,
        Err(_) => String::from_str("Unknown"),
    }
}

/// Maps a failure onto the host's failure encoding: a negative status
/// passes unchanged, anything else becomes the unspecified failure, so that
/// a failed notification can never read as success.
pub fn failure_status(e: Hresult) -> (s: Hresult)
    ensures
        s == (if e < 0 { e } else { E_FAIL }),
        s < 0,
{
    if e < 0 {
        e
    } else {
        E_FAIL
    }
}

/// Converts a handler outcome into what crosses the boundary back to the
/// host: success yields the event for the queue and the success status; a
/// failure yields no event and the failure, mapped onto the failure
/// encoding.
pub fn outcome_for(handler: Result<(), Hresult>, ev: NotificationEvent) -> (o: DispatchOutcome)
    ensures
        handler matches Ok(_) ==> o.status == S_OK && o.event == Some(ev),
        handler matches Err(e) ==> o.event is None && o.status == (if e < 0 { e } else { E_FAIL }),
        (o.status == S_OK) <==> (o.event is Some),
        o.status != S_OK ==> o.status < 0,
        o.event matches Some(e2) ==> e2 == ev,
{
    match handler {
        Ok(()) => DispatchOutcome { status: S_OK, event: Some(ev) },
        Err(e) => DispatchOutcome { status: failure_status(e), event: None },
    }
}

/// `s` with `x` appended, unless `s` already holds it.
pub open spec fn insert_unique(s: Seq<u64>, x: u64) -> Seq<u64> {
    if s.contains(x) {
        s
    } else {
        s.push(x)
    }
}

/// The identifiers a generation report keeps: those whose generation could
/// still be measured, in report order.
pub open spec fn retained_of(upd: Seq<(u64, Option<u32>)>) -> Seq<u64>
    decreases upd.len(),
{
    if upd.len() == 0 {
        Seq::empty()
    } else if upd.last().1 is Some {
        retained_of(upd.drop_last()).push(upd.last().0)
    } else {
        retained_of(upd.drop_last())
    }
}

/// A generation report covers exactly the identifiers followed before the
/// collection, in order.
pub open spec fn gc_update_shape(before: Seq<u64>, upd: Seq<(u64, Option<u32>)>) -> bool {
    &&& upd.len() == before.len()
    &&& forall|j: int| 0 <= j < upd.len() ==> (#[trigger] upd[j]).0 == before[j]
}

/// Whether the vector holds `x`.
fn contains_u64(v: &Vec<u64>, x: u64) -> (b: bool)
    ensures
        b == v@.contains(x),
{
    let mut i: usize = 0;
    while i < v.len()
        invariant
            0 <= i <= v@.len(),
            forall|j: int| 0 <= j < i ==> v@[j] != x,
        decreases v@.len() - i,
    {
        if v[i] == x {
            return true;
        }
        i = i + 1;
    }
    false
}

/// Identifies the function table a granted interface reference addresses.
#[derive(Clone, Copy, PartialEq, Eq, Structural, Debug)]
pub struct UnknownVtbl {
    pub iid: Guid,
}

/// A granted reference to a dispatch object through one of its capability
/// tables: what stands in for the raw interface pointer the host receives
/// from a successful capability query. Every such reference begins with the
/// universal base capability's three entry points.
#[derive(Clone, Copy, PartialEq, Eq, Structural, Debug)]
pub struct Unknown {
    pub vtbl: UnknownVtbl,
}

/// A breach of the reference-count protocol by the host. It signals a
/// defect and is never absorbed silently.
#[derive(Clone, Copy, PartialEq, Eq, Structural, Debug)]
pub enum ProtocolViolation {
    /// A release arrived while the count was already zero.
    DoubleRelease,
}

/// One reference-count operation a host thread may perform on the object.
#[derive(Clone, Copy, PartialEq, Eq, Structural, Debug)]
pub enum RefOp {
    Acquire,
    Release,
}

/// The lifecycle state the reference-count protocol governs: how many
/// references remain, and how often the storage has been reclaimed.
pub struct RefCountState {
    pub count: int,
    pub deallocs: int,
}

/// The state of a freshly created object: one reference, held implicitly by
/// the creator, and storage still allocated.
pub open spec fn initial_ref_state() -> RefCountState {
    RefCountState { count: 1, deallocs: 0 }
}

/// How one operation moves the lifecycle state. A release finding the count
/// at zero is rejected and changes nothing; the release that reaches zero
/// reclaims the storage.
pub open spec fn apply_ref_op(s: RefCountState, op: RefOp) -> RefCountState {
    match op {
        RefOp::Acquire => RefCountState { count: s.count + 1, deallocs: s.deallocs },
        RefOp::Release => if s.count == 0 {
            s
        } else {
            RefCountState {
                count: s.count - 1,
                deallocs: s.deallocs + if s.count == 1 { 1int } else { 0int },
            }
        },
    }
}

/// The state after a whole sequence of operations, applied in order to a
/// fresh object.
pub open spec fn apply_ref_ops(ops: Seq<RefOp>) -> RefCountState
    decreases ops.len(),
{
    if ops.len() == 0 {
        initial_ref_state()
    } else {
        apply_ref_op(apply_ref_ops(ops.drop_last()), ops.last())
    }
}

/// How many acquires the sequence holds.
pub open spec fn acquires_in(ops: Seq<RefOp>) -> int
    decreases ops.len(),
{
    if ops.len() == 0 {
        0int
    } else {
        acquires_in(ops.drop_last()) + if ops.last() is Acquire { 1int } else { 0int }
    }
}

/// How many releases the sequence holds.
pub open spec fn releases_in(ops: Seq<RefOp>) -> int
    decreases ops.len(),
{
    if ops.len() == 0 {
        0int
    } else {
        releases_in(ops.drop_last()) + if ops.last() is Release { 1int } else { 0int }
    }
}

/// The sequence respects the protocol: every operation finds the object
/// still referenced, so no call ever arrives after the storage was
/// reclaimed and no release under-runs the count.
pub open spec fn ref_ops_valid(ops: Seq<RefOp>) -> bool {
    forall|i: int| 0 <= i < ops.len() ==> apply_ref_ops(#[trigger] ops.take(i)).count > 0
}

/// For every protocol-respecting sequence of acquires and releases on one
/// object, the count after the whole sequence equals one plus the acquires
/// minus the releases; and the storage is reclaimed exactly on the call
/// that takes the count to zero, and exactly once.
pub proof fn lemma_count_tracks_history(ops: Seq<RefOp>)
    requires
        ref_ops_valid(ops),
    ensures
        apply_ref_ops(ops).count == 1 + acquires_in(ops) - releases_in(ops),
        apply_ref_ops(ops).deallocs == if apply_ref_ops(ops).count == 0 { 1int } else { 0int },
    decreases ops.len(),
{
    if ops.len() > 0 {
        let prefix = ops.drop_last();
        assert forall|i: int| 0 <= i < prefix.len() implies apply_ref_ops(
            #[trigger] prefix.take(i),
        ).count > 0 by {
            assert(prefix.take(i) =~= ops.take(i));
            assert(apply_ref_ops(ops.take(i)).count > 0);
        }
        lemma_count_tracks_history(prefix);
        assert(ops.take(ops.len() - 1) =~= prefix);
        assert(apply_ref_ops(prefix).count > 0);
    }
}

/// The well-known class identifier the factory serves.
pub open spec fn profiler_clsid() -> Guid {
    Guid { data1: 0xDF63A541, data2: 0x5A33, data3: 0x4611, data4: 0x8829_F4E4_9598_5EE3 }
}

/// The single allocation backing the plugin instance: the capability table,
/// the atomic reference count, the info-provider back-reference (set once at
/// initialization), and the embedded user handler.
///
/// The count and the deallocation tally are modelled as plain fields; the
/// compiled object guards them with atomic operations, which the unverified
/// shell supplies at the call boundary.
pub struct CorProfilerCallback<H, I> {
    vtbl: CorProfilerCallbackVtbl,
    ref_count: u32,
    dealloc_count: u32,
    cor_profiler_info: Option<I>,
    profiler: H,
    observed_objects: Vec<u64>,
}

impl<H, I> CorProfilerCallback<H, I> {
    /// The current reference count.
    pub closed spec fn count(self) -> u32 {
        self.ref_count
    }

    /// How many times this object's storage has been reclaimed. The
    /// lifecycle contract keeps it at most one.
    pub closed spec fn deallocs(self) -> u32 {
        self.dealloc_count
    }

    /// The object has not been deallocated.
    pub open spec fn alive(self) -> bool {
        self.deallocs() == 0
    }

    /// The info-provider back-reference, if initialization has delivered one.
    pub closed spec fn info_spec(self) -> Option<I> {
        self.cor_profiler_info
    }

    /// The embedded user handler.
    pub closed spec fn handler_spec(self) -> H {
        self.profiler
    }

    /// The allocated object identifiers this instance still follows, in the
    /// order their allocation notifications arrived.
    pub closed spec fn observed(self) -> Seq<u64> {
        self.observed_objects@
    }

    /// This object's position in the reference-count lifecycle.
    pub open spec fn lifecycle(self) -> RefCountState {
        RefCountState { count: self.count() as int, deallocs: self.deallocs() as int }
    }

    /// The lifecycle invariant: the capability table is the fixed one,
    /// storage is reclaimed at most once, and never while references remain.
    pub closed spec fn wf(self) -> bool {
        &&& self.vtbl.wf()
        &&& self.dealloc_count <= 1
        &&& self.ref_count > 0 ==> self.dealloc_count == 0
    }

    /// Everything but the reference count, the deallocation tally and the
    /// handler is unchanged.
    pub open spec fn same_identity(self, other: Self) -> bool {
        &&& self.info_spec() == other.info_spec()
        &&& self.observed() == other.observed()
    }

    /// What a notification entry point leaves untouched: the lifecycle
    /// state, the back-reference and the followed objects. Only the
    /// embedded handler may change.
    pub open spec fn frame_preserved(self, other: Self) -> bool {
        &&& self.count() == other.count()
        &&& self.deallocs() == other.deallocs()
        &&& self.same_identity(other)
    }

    /// Creates the plugin instance. The count starts at one: the creator
    /// already holds an owning reference, which the host releases without a
    /// matching prior acquire — a required compatibility behaviour.
    pub fn new(profiler: H) -> (cb: CorProfilerCallback<H, I>)
        ensures
            cb.wf(),
            cb.alive(),
            cb.count() == 1,
            cb.info_spec() is None,
            cb.handler_spec() == profiler,
            cb.observed().len() == 0,
    {
        CorProfilerCallback {
            vtbl: CorProfilerCallbackVtbl::new(),
            ref_count: 1,
            dealloc_count: 0,
            cor_profiler_info: None,
            profiler,
            observed_objects: Vec::new(),
        }
    }

    /// The well-known class identifier this plugin registers under.
    pub fn clsid() -> (g: Guid)
        ensures
            g == profiler_clsid(),
    {
        Guid { data1: 0xDF63A541, data2: 0x5A33, data3: 0x4611, data4: 0x8829_F4E4_9598_5EE3 }
    }

    /// The info-provider back-reference; only valid once initialization has
    /// delivered one.
    pub fn cor_profiler_info(&self) -> (r: &I)
        requires
            self.info_spec() is Some,
        ensures
            self.info_spec() matches Some(i) && *r == i,
    {
        match &self.cor_profiler_info {
            Some(i) => i,
            None => unreached(),
        }
    }

    /// Reads the current reference count.
    pub fn current_count(&self) -> (n: u32)
        ensures
            n == self.count(),
    {
        self.ref_count
    }

    /// Reads the deallocation tally.
    pub fn times_deallocated(&self) -> (n: u32)
        ensures
            n == self.deallocs(),
    {
        self.dealloc_count
    }

    /// How many allocated objects this instance still follows.
    pub fn observed_len(&self) -> (n: usize)
        ensures
            n == self.observed().len(),
    {
        self.observed_objects.len()
    }

    /// Acquires one reference and reports the post-increment count. No
    /// blocking, no failure mode.
    pub fn add_ref(&mut self) -> (n: u32)
        requires
            old(self).wf(),
            old(self).alive(),
            old(self).count() < u32::MAX,
        ensures
            final(self).wf(),
            final(self).alive(),
            final(self).count() == old(self).count() + 1,
            n == final(self).count(),
            final(self).lifecycle() == apply_ref_op(old(self).lifecycle(), RefOp::Acquire),
            final(self).same_identity(*old(self)),
            final(self).handler_spec() == old(self).handler_spec(),
    {
        self.ref_count = self.ref_count + 1;
        self.ref_count
    }

    /// Releases one reference. A release while the count is already zero is
    /// a protocol violation and changes nothing; the release that takes the
    /// count to zero reclaims the object's storage, exactly once.
    pub fn release(&mut self) -> (r: Result<u32, ProtocolViolation>)
        requires
            old(self).wf(),
        ensures
            final(self).wf(),
            final(self).lifecycle() == apply_ref_op(old(self).lifecycle(), RefOp::Release),
            old(self).count() == 0 ==> r == Err::<u32, ProtocolViolation>(
                ProtocolViolation::DoubleRelease,
            ) && *final(self) == *old(self),
            old(self).count() > 0 ==> {
                &&& r == Ok::<u32, ProtocolViolation>((old(self).count() - 1) as u32)
                &&& final(self).count() == old(self).count() - 1
                &&& final(self).deallocs() == old(self).deallocs() + (
                    if old(self).count() == 1 { 1int } else { 0int }
                )
                &&& final(self).same_identity(*old(self))
                &&& final(self).handler_spec() == old(self).handler_spec()
            },
    {
        if self.ref_count == 0 {
            return Err(ProtocolViolation::DoubleRelease);
        }
        self.ref_count = self.ref_count - 1;
        if self.ref_count == 0 {
            self.dealloc_count = self.dealloc_count + 1;
        }
        Ok(self.ref_count)
    }

    /// Capability negotiation: succeeds, hands out a reference to this very
    /// object and acquires one count, iff `riid` is present in the
    /// capability table (the universal base capability included). On failure
    /// the pointer stays null and the count is untouched.
    pub fn query_interface(&mut self, riid: &Guid) -> (r: (Hresult, Option<Unknown>))
        requires
            old(self).wf(),
            old(self).alive(),
            old(self).count() < u32::MAX,
        ensures
            final(self).wf(),
            final(self).alive(),
            table_contains(*riid) ==> {
                &&& r.0 == S_OK
                &&& r.1 matches Some(u) && u.vtbl.iid == *riid
                &&& final(self).count() == old(self).count() + 1
                &&& final(self).same_identity(*old(self))
                &&& final(self).handler_spec() == old(self).handler_spec()
            },
            !table_contains(*riid) ==> {
                &&& r.0 == E_NOINTERFACE
                &&& r.1 is None
                &&& *final(self) == *old(self)
            },
    {
        if self.vtbl.supports(riid) {
            self.add_ref();
            (S_OK, Some(Unknown { vtbl: UnknownVtbl { iid: *riid } }))
        } else {
            (E_NOINTERFACE, None)
        }
    }
}

impl<H: ProfilerHandler, I: ProfilerInfoApi> CorProfilerCallback<H, I> {
    /// Stores the info-provider back-reference and requests the full event
    /// mask; fails, changing nothing else, when the host handed over
    /// nothing. What the provider answers to the mask request is its own
    /// affair and is deliberately ignored.
    pub fn initialize(&mut self, info: Option<I>) -> (r: Hresult)
        requires
            old(self).wf(),
            old(self).alive(),
        ensures
            final(self).wf(),
            final(self).alive(),
            final(self).count() == old(self).count(),
            final(self).deallocs() == old(self).deallocs(),
            final(self).observed() == old(self).observed(),
            final(self).handler_spec() == old(self).handler_spec(),
            (r == S_OK) <==> (info is Some),
            r != S_OK ==> r == E_FAIL,
            info is Some ==> final(self).info_spec() is Some,
            info is None ==> final(self).info_spec() is None,
    {
        self.cor_profiler_info = info;
        match &mut self.cor_profiler_info {
            None => E_FAIL,
            Some(i) => {
                let _ = i.set_event_mask(COR_PRF_ALL);
                S_OK
            },
        }
    }

    /// Forwards the shutdown notification to the handler and maps its
    /// outcome onto the boundary encoding. Signalling the session's control
    /// channel is the embedding's part.
    pub fn shutdown(&mut self) -> (r: Hresult)
        requires
            old(self).wf(),
            old(self).alive(),
        ensures
            final(self).wf(),
            final(self).alive(),
            final(self).frame_preserved(*old(self)),
            r == S_OK || r < 0,
    {
        match self.profiler.on_shutdown() {
            Ok(()) => S_OK,
            Err(e) => failure_status(e),
        }
    }

    /// Resolves a class handle to its readable name through the facade
    /// chain: class info, module metadata, type-definition properties.
    fn get_class_name(info: &I, class_id: u64) -> Result<String, Hresult> {
        let ci = info.get_class_id_info(class_id)?;
        let md = info.get_module_metadata(ci.module_id)?;
        let props = md.get_typedef_props(ci.token)?;
        Ok(props.name)
    }

    /// Resolves a function handle to its readable name through the facade
    /// chain: function info, module metadata, method properties.
    fn get_method_name(info: &I, function_id: u64) -> Result<String, Hresult> {
        let fi = info.get_function_info(function_id)?;
        let md = info.get_module_metadata(fi.module_id)?;
        let props = md.get_method_props(fi.token)?;
        Ok(props.name)
    }

    /// Follows an allocated object identifier, once.
    fn observe_object(&mut self, object_id: u64)
        requires
            old(self).wf(),
        ensures
            final(self).wf(),
            final(self).count() == old(self).count(),
            final(self).deallocs() == old(self).deallocs(),
            final(self).info_spec() == old(self).info_spec(),
            final(self).handler_spec() == old(self).handler_spec(),
            final(self).observed() == insert_unique(old(self).observed(), object_id),
    {
        if !contains_u64(&self.observed_objects, object_id) {
            self.observed_objects.push(object_id);
        }
    }

    /// A class finished loading: resolve its name (degrading to the
    /// placeholder), consult the handler, and report the event on success.
    pub fn class_load_finished(&mut self, class_id: u64, hr_status: Hresult, time: u64) -> (o:
        DispatchOutcome)
        requires
            old(self).wf(),
            old(self).alive(),
            old(self).info_spec() is Some,
        ensures
            final(self).wf(),
            final(self).alive(),
            final(self).frame_preserved(*old(self)),
            (o.status == S_OK) <==> (o.event is Some),
            o.status != S_OK ==> o.status < 0,
            o.event matches Some(ev) ==> ev matches NotificationEvent::ClassLoadFinished {
                time: t,
                name: _,
            } && t == time,
    {
        let name = {
            let info = self.cor_profiler_info();
            name_or_unknown(Self::get_class_name(info, class_id))
        };
        let hr = self.profiler.on_class_load(name.as_str(), hr_status);
        outcome_for(hr, NotificationEvent::ClassLoadFinished { time, name })
    }

    /// A class finished unloading; handled like a class load.
    pub fn class_unload_finished(&mut self, class_id: u64, hr_status: Hresult, time: u64) -> (o:
        DispatchOutcome)
        requires
            old(self).wf(),
            old(self).alive(),
            old(self).info_spec() is Some,
        ensures
            final(self).wf(),
            final(self).alive(),
            final(self).frame_preserved(*old(self)),
            (o.status == S_OK) <==> (o.event is Some),
            o.status != S_OK ==> o.status < 0,
            o.event matches Some(ev) ==> ev matches NotificationEvent::ClassUnloadFinished {
                time: t,
                name: _,
            } && t == time,
    {
        let name = {
            let info = self.cor_profiler_info();
            name_or_unknown(Self::get_class_name(info, class_id))
        };
        let hr = self.profiler.on_class_unload(name.as_str(), hr_status);
        outcome_for(hr, NotificationEvent::ClassUnloadFinished { time, name })
    }

    /// Just-in-time compilation of a method began. The safe-to-block hint
    /// is accepted and deliberately unused.
    pub fn jit_compilation_started(
        &mut self,
        function_id: u64,
        _is_safe_to_block: bool,
        time: u64,
    ) -> (o: DispatchOutcome)
        requires
            old(self).wf(),
            old(self).alive(),
            old(self).info_spec() is Some,
        ensures
            final(self).wf(),
            final(self).alive(),
            final(self).frame_preserved(*old(self)),
            (o.status == S_OK) <==> (o.event is Some),
            o.status != S_OK ==> o.status < 0,
            o.event matches Some(ev) ==> ev matches NotificationEvent::JitStart {
                time: t,
                name: _,
            } && t == time,
    {
        let name = {
            let info = self.cor_profiler_info();
            name_or_unknown(Self::get_method_name(info, function_id))
        };
        let hr = self.profiler.on_jit_start(name.as_str());
        outcome_for(hr, NotificationEvent::JitStart { time, name })
    }

    /// Just-in-time compilation of a method finished.
    pub fn jit_compilation_finished(
        &mut self,
        function_id: u64,
        hr_status: Hresult,
        _is_safe_to_block: bool,
        time: u64,
    ) -> (o: DispatchOutcome)
        requires
            old(self).wf(),
            old(self).alive(),
            old(self).info_spec() is Some,
        ensures
            final(self).wf(),
            final(self).alive(),
            final(self).frame_preserved(*old(self)),
            (o.status == S_OK) <==> (o.event is Some),
            o.status != S_OK ==> o.status < 0,
            o.event matches Some(ev) ==> ev matches NotificationEvent::JitFinished {
                time: t,
                name: _,
            } && t == time,
    {
        let name = {
            let info = self.cor_profiler_info();
            name_or_unknown(Self::get_method_name(info, function_id))
        };
        let hr = self.profiler.on_jit_finish(name.as_str(), hr_status);
        outcome_for(hr, NotificationEvent::JitFinished { time, name })
    }

    /// A managed thread was created. The thread handle must resolve to an
    /// operating-system identifier; a failed lookup fails the notification.
    pub fn thread_created(&mut self, thread_id: u64, time: u64) -> (o: DispatchOutcome)
        requires
            old(self).wf(),
            old(self).alive(),
            old(self).info_spec() is Some,
        ensures
            final(self).wf(),
            final(self).alive(),
            final(self).frame_preserved(*old(self)),
            (o.status == S_OK) <==> (o.event is Some),
            o.status != S_OK ==> o.status < 0,
            o.event matches Some(ev) ==> ev matches NotificationEvent::ThreadCreated {
                time: t,
                os_id: _,
            } && t == time,
    {
        let lookup = {
            let info = self.cor_profiler_info();
            info.get_thread_info(thread_id)
        };
        match lookup {
            Err(e) => DispatchOutcome { status: failure_status(e), event: None },
            Ok(os_id) => {
                let hr = self.profiler.on_thread_created(os_id);
                outcome_for(hr, NotificationEvent::ThreadCreated { time, os_id })
            },
        }
    }

    /// A managed thread was destroyed.
    pub fn thread_destroyed(&mut self, thread_id: u64, time: u64) -> (o: DispatchOutcome)
        requires
            old(self).wf(),
            old(self).alive(),
            old(self).info_spec() is Some,
        ensures
            final(self).wf(),
            final(self).alive(),
            final(self).frame_preserved(*old(self)),
            (o.status == S_OK) <==> (o.event is Some),
            o.status != S_OK ==> o.status < 0,
            o.event matches Some(ev) ==> ev matches NotificationEvent::ThreadDestroyed {
                time: t,
                os_id: _,
            } && t == time,
    {
        let lookup = {
            let info = self.cor_profiler_info();
            info.get_thread_info(thread_id)
        };
        match lookup {
            Err(e) => DispatchOutcome { status: failure_status(e), event: None },
            Ok(os_id) => {
                let hr = self.profiler.on_thread_destroyed(os_id);
                outcome_for(hr, NotificationEvent::ThreadDestroyed { time, os_id })
            },
        }
    }

    /// The runtime resumed a suspended thread.
    pub fn runtime_thread_resumed(&mut self, thread_id: u64, time: u64) -> (o: DispatchOutcome)
        requires
            old(self).wf(),
            old(self).alive(),
            old(self).info_spec() is Some,
        ensures
            final(self).wf(),
            final(self).alive(),
            final(self).frame_preserved(*old(self)),
            (o.status == S_OK) <==> (o.event is Some),
            o.status != S_OK ==> o.status < 0,
            o.event matches Some(ev) ==> ev matches NotificationEvent::ThreadResumed {
                time: t,
                os_id: _,
            } && t == time,
    {
        let lookup = {
            let info = self.cor_profiler_info();
            info.get_thread_info(thread_id)
        };
        match lookup {
            Err(e) => DispatchOutcome { status: failure_status(e), event: None },
            Ok(os_id) => {
                let hr = self.profiler.on_thread_resumed(os_id);
                outcome_for(hr, NotificationEvent::ThreadResumed { time, os_id })
            },
        }
    }

    /// The runtime suspended a thread.
    pub fn runtime_thread_suspended(&mut self, thread_id: u64, time: u64) -> (o: DispatchOutcome)
        requires
            old(self).wf(),
            old(self).alive(),
            old(self).info_spec() is Some,
        ensures
            final(self).wf(),
            final(self).alive(),
            final(self).frame_preserved(*old(self)),
            (o.status == S_OK) <==> (o.event is Some),
            o.status != S_OK ==> o.status < 0,
            o.event matches Some(ev) ==> ev matches NotificationEvent::ThreadSuspended {
                time: t,
                os_id: _,
            } && t == time,
    {
        let lookup = {
            let info = self.cor_profiler_info();
            info.get_thread_info(thread_id)
        };
        match lookup {
            Err(e) => DispatchOutcome { status: failure_status(e), event: None },
            Ok(os_id) => {
                let hr = self.profiler.on_thread_suspended(os_id);
                outcome_for(hr, NotificationEvent::ThreadSuspended { time, os_id })
            },
        }
    }

    /// An exception object was thrown. Its class must resolve; the class
    /// name then degrades like any other lookup.
    pub fn exception_thrown(&mut self, thrown_object_id: u64, time: u64) -> (o: DispatchOutcome)
        requires
            old(self).wf(),
            old(self).alive(),
            old(self).info_spec() is Some,
        ensures
            final(self).wf(),
            final(self).alive(),
            final(self).frame_preserved(*old(self)),
            (o.status == S_OK) <==> (o.event is Some),
            o.status != S_OK ==> o.status < 0,
            o.event matches Some(ev) ==> ev matches NotificationEvent::ExceptionThrown {
                time: t,
                name: _,
            } && t == time,
    {
        let lookup = {
            let info = self.cor_profiler_info();
            info.get_class_from_object(thrown_object_id)
        };
        match lookup {
            Err(e) => DispatchOutcome { status: failure_status(e), event: None },
            Ok(class_id) => {
                let name = {
                    let info = self.cor_profiler_info();
                    name_or_unknown(Self::get_class_name(info, class_id))
                };
                let hr = self.profiler.on_exception_thrown(name.as_str());
                outcome_for(hr, NotificationEvent::ExceptionThrown { time, name })
            },
        }
    }

    /// An object was allocated: resolve its class name, size and
    /// generation (each degrading independently), follow the identifier,
    /// consult the handler, and report the event on success.
    pub fn object_allocated(&mut self, object_id: u64, class_id: u64, time: u64) -> (o:
        DispatchOutcome)
        requires
            old(self).wf(),
            old(self).alive(),
            old(self).info_spec() is Some,
        ensures
            final(self).wf(),
            final(self).alive(),
            final(self).count() == old(self).count(),
            final(self).deallocs() == old(self).deallocs(),
            final(self).info_spec() == old(self).info_spec(),
            final(self).observed() == insert_unique(old(self).observed(), object_id),
            (o.status == S_OK) <==> (o.event is Some),
            o.status != S_OK ==> o.status < 0,
            o.event matches Some(ev) ==> ev matches NotificationEvent::ObjectAllocated {
                time: t,
                object_id: oid,
                size: _,
                class_name: _,
                generation: _,
            } && t == time && oid == object_id,
    {
        let name = {
            let info = self.cor_profiler_info();
            name_or_unknown(Self::get_class_name(info, class_id))
        };
        let size = {
            let info = self.cor_profiler_info();
            match info.get_object_size(object_id) {
                Ok(s) => s,
                Err(_) => 0,
            }
        };
        let generation = {
            let info = self.cor_profiler_info();
            match info.get_object_generation(object_id) {
                Ok(g) => Some(g),
                Err(_) => None,
            }
        };
        self.observe_object(object_id);
        let hr = self.profiler.on_object_allocated(object_id, size, name.as_str(), generation);
        outcome_for(
            hr,
            NotificationEvent::ObjectAllocated {
                time,
                object_id,
                size,
                class_name: name,
                generation,
            },
        )
    }

    /// A garbage collection finished: re-measure the generation of every
    /// followed object, in the order they were first seen, keep following
    /// exactly those still measurable, and report the whole update.
    pub fn garbage_collection_finished(&mut self, time: u64) -> (o: DispatchOutcome)
        requires
            old(self).wf(),
            old(self).alive(),
            old(self).info_spec() is Some,
        ensures
            final(self).wf(),
            final(self).alive(),
            final(self).count() == old(self).count(),
            final(self).deallocs() == old(self).deallocs(),
            final(self).info_spec() == old(self).info_spec(),
            (o.status == S_OK) <==> (o.event is Some),
            o.status != S_OK ==> o.status < 0,
            exists|upd: Seq<(u64, Option<u32>)>|
                {
                    &&& #[trigger] gc_update_shape(old(self).observed(), upd)
                    &&& final(self).observed() == retained_of(upd)
                    &&& (o.event matches Some(ev) ==> ev matches
                        NotificationEvent::GenerationsUpdate { time: t, objects } && t == time
                        && objects@ == upd)
                },
    {
        let n = self.observed_objects.len();
        let mut updates: Vec<(u64, Option<u32>)> = Vec::new();
        let mut retained: Vec<u64> = Vec::new();
        let mut i: usize = 0;
        while i < n
            invariant
                *self == *old(self),
                self.wf(),
                self.info_spec() is Some,
                n == self.observed_objects@.len(),
                0 <= i <= n,
                updates@.len() == i,
                gc_update_shape(old(self).observed().take(i as int), updates@),
                retained@ == retained_of(updates@),
            decreases n - i,
        {
            let id = self.observed_objects[i];
            let generation = {
                let info = self.cor_profiler_info();
                match info.get_object_generation(id) {
                    Ok(g) => Some(g),
                    Err(_) => None,
                }
            };
            let ghost prev_updates = updates@;
            updates.push((id, generation));
            match generation {
                Some(_) => retained.push(id),
                None => {},
            }
            proof {
                assert(updates@.drop_last() =~= prev_updates);
                assert(updates@.last() == (id, generation));
                assert(old(self).observed().take(i + 1 as int) =~= old(self).observed().take(
                    i as int,
                ).push(id));
            }
            i = i + 1;
        }
        proof {
            assert(old(self).observed().take(n as int) =~= old(self).observed());
        }
        let ghost upd = updates@;
        self.observed_objects = retained;
        let hr = self.profiler.on_gc_finished();
        let o = outcome_for(hr, NotificationEvent::GenerationsUpdate { time, objects: updates });
        proof {
            assert(gc_update_shape(old(self).observed(), upd));
        }
        o
    }
}

/// The factory entry point: serves the well-known class identifier with a
/// fresh instance whose count is one, and refuses any other class.
pub fn create_instance<H, I>(class_id: &Guid, profiler: H) -> (r: Result<
    CorProfilerCallback<H, I>,
    Hresult,
>)
    ensures
        *class_id == profiler_clsid() ==> {
            &&& r matches Ok(cb)
            &&& cb.wf()
            &&& cb.alive()
            &&& cb.count() == 1
            &&& cb.info_spec() is None
            &&& cb.handler_spec() == profiler
        },
        *class_id != profiler_clsid() ==> r == Err::<CorProfilerCallback<H, I>, Hresult>(
            CLASS_E_CLASSNOTAVAILABLE,
        ),
{
    let clsid = CorProfilerCallback::<H, I>::clsid();
    if *class_id == clsid {
        Ok(CorProfilerCallback::new(profiler))
    } else {
        Err(CLASS_E_CLASSNOTAVAILABLE)
    }
}

} // verus!
