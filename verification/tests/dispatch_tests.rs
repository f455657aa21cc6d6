use clr_profiler::CLASS_E_CLASSNOTAVAILABLE;
use clr_profiler::ClassInfo;
use clr_profiler::CorProfilerCallback;
use clr_profiler::DispatchOutcome;
use clr_profiler::E_FAIL;
use clr_profiler::E_NOINTERFACE;
use clr_profiler::FunctionInfo;
use clr_profiler::Guid;
use clr_profiler::Hresult;
use clr_profiler::ICorProfilerCallback7;
use clr_profiler::MetadataImportTrait;
use clr_profiler::MethodProps;
use clr_profiler::NoopHandler;
use clr_profiler::NotificationEvent;
use clr_profiler::ProfilerHandler;
use clr_profiler::ProfilerInfoApi;
use clr_profiler::ProtocolViolation;
use clr_profiler::S_OK;
use clr_profiler::TypeDefProps;
use clr_profiler::create_instance;
use clr_profiler::dispatch::COR_PRF_ALL;
use clr_profiler::failure_status;
use clr_profiler::name_or_unknown;
use clr_profiler::outcome_for;
use clr_profiler::parse_guid;

struct TestMeta {
    fail_typedef: bool,
    fail_method: bool,
}

impl MetadataImportTrait for TestMeta {
    fn get_method_props(&self, mb: u32) -> Result<MethodProps, Hresult> {
        if self.fail_method {
            Err(-101)
        } else {
            Ok(MethodProps { name: format!("Method{}", mb) })
        }
    }

    fn get_typedef_props(&self, td: u32) -> Result<TypeDefProps, Hresult> {
        if self.fail_typedef {
            Err(-100)
        } else {
            Ok(TypeDefProps { name: format!("Class{}", td) })
        }
    }
}

struct TestInfo {
    mask: u64,
    fail_class_info: bool,
    fail_metadata: bool,
    fail_typedef: bool,
    fail_thread: bool,
}

impl TestInfo {
    fn ok() -> TestInfo {
        TestInfo {
            mask: 0,
            fail_class_info: false,
            fail_metadata: false,
            fail_typedef: false,
            fail_thread: false,
        }
    }
}

impl ProfilerInfoApi for TestInfo {
    type Md = TestMeta;

    fn set_event_mask(&mut self, mask: u64) -> Result<(), Hresult> {
        self.mask = mask;
        Ok(())
    }

    fn get_class_id_info(&self, class_id: u64) -> Result<ClassInfo, Hresult> {
        if self.fail_class_info {
            Err(-102)
        } else {
            Ok(ClassInfo { module_id: class_id + 1000, token: class_id as u32 })
        }
    }

    fn get_function_info(&self, function_id: u64) -> Result<FunctionInfo, Hresult> {
        Ok(FunctionInfo { module_id: 1, token: function_id as u32 })
    }

    fn get_module_metadata(&self, _module_id: u64) -> Result<TestMeta, Hresult> {
        if self.fail_metadata {
            Err(-103)
        } else {
            Ok(TestMeta { fail_typedef: self.fail_typedef, fail_method: false })
        }
    }

    fn get_object_size(&self, object_id: u64) -> Result<u64, Hresult> {
        if object_id == 7 {
            Err(-104)
        } else {
            Ok(object_id * 8)
        }
    }

    fn get_object_generation(&self, object_id: u64) -> Result<u32, Hresult> {
        if object_id % 2 == 0 {
            Ok((object_id % 3) as u32)
        } else {
            Err(-105)
        }
    }

    fn get_thread_info(&self, thread_id: u64) -> Result<u64, Hresult> {
        if self.fail_thread {
            Err(-106)
        } else {
            Ok(thread_id + 500)
        }
    }

    fn get_class_from_object(&self, object_id: u64) -> Result<u64, Hresult> {
        Ok(object_id / 10)
    }
}

struct FailingHandler {
    code: Hresult,
}

impl ProfilerHandler for FailingHandler {
    fn on_class_load(&mut self, _name: &str, _status: Hresult) -> Result<(), Hresult> {
        Err(self.code)
    }
}

fn fresh() -> CorProfilerCallback<NoopHandler, TestInfo> {
    CorProfilerCallback::new(NoopHandler)
}

fn initialized() -> CorProfilerCallback<NoopHandler, TestInfo> {
    let mut cb = fresh();
    assert_eq!(cb.initialize(Some(TestInfo::ok())), S_OK);
    cb
}

#[test]
fn refcount_lifecycle_scenario() {
    let mut cb = fresh();
    assert_eq!(cb.current_count(), 1);
    assert_eq!(cb.times_deallocated(), 0);
    assert_eq!(cb.add_ref(), 2);
    assert_eq!(cb.release(), Ok(1));
    assert_eq!(cb.times_deallocated(), 0);
    assert_eq!(cb.release(), Ok(0));
    assert_eq!(cb.times_deallocated(), 1);
    assert_eq!(cb.release(), Err(ProtocolViolation::DoubleRelease));
    assert_eq!(cb.times_deallocated(), 1);
}

#[test]
fn refcount_matches_history() {
    let mut cb = fresh();
    let mut acquires: u32 = 0;
    let mut releases: u32 = 0;
    for _ in 0..5 {
        let n = cb.add_ref();
        acquires += 1;
        assert_eq!(n, 1 + acquires - releases);
    }
    for _ in 0..3 {
        let n = cb.release().unwrap();
        releases += 1;
        assert_eq!(n, 1 + acquires - releases);
    }
    assert_eq!(cb.current_count(), 3);
    assert_eq!(cb.times_deallocated(), 0);
}

#[test]
fn query_capability_known_ids() {
    let base = Guid::from_value(0x00000000_0000_0000_C000_000000000046u128);
    let seventh = ICorProfilerCallback7::iid();
    let known = [base, seventh];
    for id in known.iter() {
        let mut cb = fresh();
        let (status, granted) = cb.query_interface(id);
        assert_eq!(status, S_OK);
        let u = granted.expect("a known capability must yield a reference");
        assert_eq!(u.vtbl.iid, *id);
        assert_eq!(cb.current_count(), 2);
        assert_eq!(cb.release(), Ok(1));
    }
}

#[test]
fn capability_table_binds_versions() {
    let table = clr_profiler::CorProfilerCallbackVtbl::new();
    let base = Guid::from_value(0x00000000_0000_0000_C000_000000000046u128);
    assert!(table.supports(&base));
    assert_eq!(table.version_of(&base), Some(0));
    assert_eq!(table.version_of(&ICorProfilerCallback7::iid()), Some(7));
    let stranger = Guid { data1: 1, data2: 1, data3: 1, data4: 1 };
    assert!(!table.supports(&stranger));
    assert_eq!(table.version_of(&stranger), None);
}

#[test]
fn query_capability_unknown_id() {
    let mut cb = fresh();
    let stranger = Guid { data1: 0x12345678, data2: 0x9ABC, data3: 0xDEF0, data4: 42 };
    let (status, granted) = cb.query_interface(&stranger);
    assert_eq!(status, E_NOINTERFACE);
    assert!(granted.is_none());
    assert_eq!(cb.current_count(), 1);
}

#[test]
fn factory_serves_well_known_class() {
    let clsid = CorProfilerCallback::<NoopHandler, TestInfo>::clsid();
    let cb: CorProfilerCallback<NoopHandler, TestInfo> =
        create_instance(&clsid, NoopHandler).expect("the well-known class must be served");
    assert_eq!(cb.current_count(), 1);
}

#[test]
fn factory_refuses_other_class() {
    let other = Guid { data1: 1, data2: 2, data3: 3, data4: 4 };
    let r: Result<CorProfilerCallback<NoopHandler, TestInfo>, Hresult> =
        create_instance(&other, NoopHandler);
    assert_eq!(r.err(), Some(CLASS_E_CLASSNOTAVAILABLE));
}

#[test]
fn parse_guid_well_known_text() {
    let g = parse_guid("DF63A541-5A33-4611-8829-F4E495985EE3")
        .expect("the well-known identifier text must parse");
    assert_eq!(g, CorProfilerCallback::<NoopHandler, TestInfo>::clsid());
}

#[test]
fn parse_guid_rejects_garbage() {
    assert!(parse_guid("not-an-identifier").is_none());
    assert!(parse_guid("").is_none());
}

#[test]
fn guid_from_value_splits_groups() {
    let g = Guid::from_value(0xA1A2A3A4_B1B2_C1C2_D1D2_D3D4D5D6D7D8u128);
    assert_eq!(g.data1, 0xA1A2A3A4);
    assert_eq!(g.data2, 0xB1B2);
    assert_eq!(g.data3, 0xC1C2);
    assert_eq!(g.data4, 0xD1D2_D3D4_D5D6_D7D8);
}

#[test]
fn initialize_without_info_fails() {
    let mut cb = fresh();
    assert_eq!(cb.initialize(None), E_FAIL);
}

#[test]
fn initialize_requests_full_mask() {
    let cb = initialized();
    assert_eq!(cb.cor_profiler_info().mask, COR_PRF_ALL);
}

#[test]
fn class_load_resolves_name() {
    let mut cb = initialized();
    let o = cb.class_load_finished(5, 0, 111);
    assert_eq!(o.status, S_OK);
    match o.event {
        Some(NotificationEvent::ClassLoadFinished { time, name }) => {
            assert_eq!(time, 111);
            assert_eq!(name, "Class5");
        }
        other => panic!("unexpected event: {:?}", other),
    }
}

#[test]
fn class_load_degrades_to_unknown() {
    let mut cb = fresh();
    let mut info = TestInfo::ok();
    info.fail_metadata = true;
    assert_eq!(cb.initialize(Some(info)), S_OK);
    let o = cb.class_load_finished(5, 0, 1);
    assert_eq!(o.status, S_OK);
    match o.event {
        Some(NotificationEvent::ClassLoadFinished { name, .. }) => assert_eq!(name, "Unknown"),
        other => panic!("unexpected event: {:?}", other),
    }
}

#[test]
fn handler_failure_propagates_status() {
    let mut cb: CorProfilerCallback<FailingHandler, TestInfo> =
        CorProfilerCallback::new(FailingHandler { code: -5 });
    assert_eq!(cb.initialize(Some(TestInfo::ok())), S_OK);
    let o = cb.class_load_finished(1, 0, 1);
    assert_eq!(o.status, -5);
    assert!(o.event.is_none());
}

#[test]
fn handler_failure_never_reads_as_success() {
    let mut cb: CorProfilerCallback<FailingHandler, TestInfo> =
        CorProfilerCallback::new(FailingHandler { code: 7 });
    assert_eq!(cb.initialize(Some(TestInfo::ok())), S_OK);
    let o = cb.class_load_finished(1, 0, 1);
    assert_eq!(o.status, E_FAIL);
    assert!(o.event.is_none());
}

#[test]
fn thread_lookup_failure_fails_notification() {
    let mut cb = fresh();
    let mut info = TestInfo::ok();
    info.fail_thread = true;
    assert_eq!(cb.initialize(Some(info)), S_OK);
    let o = cb.thread_created(9, 2);
    assert_eq!(o.status, -106);
    assert!(o.event.is_none());
}

#[test]
fn thread_created_resolves_os_id() {
    let mut cb = initialized();
    let o = cb.thread_created(9, 2);
    assert_eq!(o.status, S_OK);
    match o.event {
        Some(NotificationEvent::ThreadCreated { time, os_id }) => {
            assert_eq!(time, 2);
            assert_eq!(os_id, 509);
        }
        other => panic!("unexpected event: {:?}", other),
    }
}

#[test]
fn jit_start_resolves_method_name() {
    let mut cb = initialized();
    let o = cb.jit_compilation_started(3, true, 4);
    assert_eq!(o.status, S_OK);
    match o.event {
        Some(NotificationEvent::JitStart { time, name }) => {
            assert_eq!(time, 4);
            assert_eq!(name, "Method3");
        }
        other => panic!("unexpected event: {:?}", other),
    }
}

#[test]
fn exception_resolves_class_of_object() {
    let mut cb = initialized();
    let o = cb.exception_thrown(50, 8);
    assert_eq!(o.status, S_OK);
    match o.event {
        Some(NotificationEvent::ExceptionThrown { time, name }) => {
            assert_eq!(time, 8);
            assert_eq!(name, "Class5");
        }
        other => panic!("unexpected event: {:?}", other),
    }
}

#[test]
fn object_allocation_event_and_tracking() {
    let mut cb = initialized();
    let o = cb.object_allocated(4, 20, 10);
    assert_eq!(o.status, S_OK);
    match o.event {
        Some(NotificationEvent::ObjectAllocated { time, object_id, size, class_name, generation }) => {
            assert_eq!(time, 10);
            assert_eq!(object_id, 4);
            assert_eq!(size, 32);
            assert_eq!(class_name, "Class20");
            assert_eq!(generation, Some(1));
        }
        other => panic!("unexpected event: {:?}", other),
    }
    assert_eq!(cb.observed_len(), 1);
    let _ = cb.object_allocated(4, 20, 11);
    assert_eq!(cb.observed_len(), 1);
    let _ = cb.object_allocated(7, 20, 12);
    assert_eq!(cb.observed_len(), 2);
}

#[test]
fn object_allocation_degrades_size_and_generation() {
    let mut cb = initialized();
    let o = cb.object_allocated(7, 20, 10);
    assert_eq!(o.status, S_OK);
    match o.event {
        Some(NotificationEvent::ObjectAllocated { size, generation, .. }) => {
            assert_eq!(size, 0);
            assert_eq!(generation, None);
        }
        other => panic!("unexpected event: {:?}", other),
    }
}

#[test]
fn gc_reports_and_retains_measurable_objects() {
    let mut cb = initialized();
    let _ = cb.object_allocated(2, 20, 1);
    let _ = cb.object_allocated(3, 20, 2);
    let _ = cb.object_allocated(4, 20, 3);
    assert_eq!(cb.observed_len(), 3);
    let o = cb.garbage_collection_finished(99);
    assert_eq!(o.status, S_OK);
    match o.event {
        Some(NotificationEvent::GenerationsUpdate { time, objects }) => {
            assert_eq!(time, 99);
            assert_eq!(objects, vec![(2, Some(2)), (3, None), (4, Some(1))]);
        }
        other => panic!("unexpected event: {:?}", other),
    }
    assert_eq!(cb.observed_len(), 2);
    let o2 = cb.garbage_collection_finished(100);
    match o2.event {
        Some(NotificationEvent::GenerationsUpdate { objects, .. }) => {
            assert_eq!(objects, vec![(2, Some(2)), (4, Some(1))]);
        }
        other => panic!("unexpected event: {:?}", other),
    }
}

#[test]
fn remaining_entry_points_report_their_kinds() {
    let mut cb = initialized();
    let o = cb.class_unload_finished(6, 0, 21);
    assert!(matches!(
        o.event,
        Some(NotificationEvent::ClassUnloadFinished { time: 21, .. })
    ));
    let o = cb.jit_compilation_finished(3, 0, false, 22);
    match o.event {
        Some(NotificationEvent::JitFinished { time, name }) => {
            assert_eq!(time, 22);
            assert_eq!(name, "Method3");
        }
        other => panic!("unexpected event: {:?}", other),
    }
    let o = cb.thread_destroyed(1, 23);
    assert!(matches!(
        o.event,
        Some(NotificationEvent::ThreadDestroyed { time: 23, os_id: 501 })
    ));
    let o = cb.runtime_thread_resumed(2, 24);
    assert!(matches!(
        o.event,
        Some(NotificationEvent::ThreadResumed { time: 24, os_id: 502 })
    ));
    let o = cb.runtime_thread_suspended(3, 25);
    assert!(matches!(
        o.event,
        Some(NotificationEvent::ThreadSuspended { time: 25, os_id: 503 })
    ));
    assert_eq!(cb.shutdown(), S_OK);
}

#[test]
fn outcome_helpers_behave_exactly() {
    assert_eq!(name_or_unknown(Ok(String::from("A"))), "A");
    assert_eq!(name_or_unknown(Err(-3)), "Unknown");
    assert_eq!(failure_status(-3), -3);
    assert_eq!(failure_status(0), E_FAIL);
    assert_eq!(failure_status(12), E_FAIL);
    let o: DispatchOutcome = outcome_for(Ok(()), NotificationEvent::ThreadCreated { time: 1, os_id: 2 });
    assert_eq!(o.status, S_OK);
    assert!(matches!(
        o.event,
        Some(NotificationEvent::ThreadCreated { time: 1, os_id: 2 })
    ));
    let o2 = outcome_for(Err(-9), NotificationEvent::ThreadCreated { time: 1, os_id: 2 });
    assert_eq!(o2.status, -9);
    assert!(o2.event.is_none());
}
