use video_proxy::Device;
use video_proxy::Instance;
use video_proxy::QueryError;
use video_proxy::Status;
use video_proxy::StubDriver;
use video_proxy::VideoQueue;

const ADDR_BASE: u64 = 100;

fn query_driver(formats: Vec<u64>, memory: Vec<u64>) -> StubDriver {
    let mut exports: Vec<(u64, u64)> = Vec::new();
    for sym in 1..=14u64 {
        exports.push((sym, ADDR_BASE + sym));
    }
    StubDriver::new(exports, formats, memory, 77, 5, 6)
}

fn video_queue(d: &mut StubDriver) -> VideoQueue {
    let instance = Instance::new(10);
    let device = Device::new(11);
    VideoQueue::new(d, &instance, &device)
}

#[test]
fn count_then_fill_calls_the_driver_exactly_twice() {
    let mut d = query_driver(vec![1, 2, 3, 4], Vec::new());
    let p = video_queue(&mut d);
    d.call_log.clear();
    let r = p.query_formats(&mut d, 9, 90);
    assert_eq!(d.call_log.len(), 2);
    assert_eq!(r.unwrap().len(), 4);
}

#[test]
fn query_formats_end_to_end_with_three_entries() {
    let mut d = query_driver(vec![21, 22, 23], Vec::new());
    let p = video_queue(&mut d);
    d.call_log.clear();
    let r = p.query_formats(&mut d, 9, 90);
    assert_eq!(r, Ok(vec![21, 22, 23]));
    assert_eq!(d.call_log.len(), 2);
    let first = d.call_log[0];
    let second = d.call_log[1];
    assert_eq!(first.addr, ADDR_BASE + 2);
    assert!(!first.has_buffer);
    assert_eq!(first.capacity, 0);
    assert_eq!(first.context, 9);
    assert_eq!(first.arg, 90);
    assert_eq!(second.addr, ADDR_BASE + 2);
    assert!(second.has_buffer);
    assert_eq!(second.capacity, 3);
    assert_eq!(second.context, 9);
    assert_eq!(second.arg, 90);
}

#[test]
fn query_formats_with_no_entries_succeeds_empty() {
    let mut d = query_driver(Vec::new(), Vec::new());
    let p = video_queue(&mut d);
    d.call_log.clear();
    let r = p.query_formats(&mut d, 9, 90);
    assert_eq!(r, Ok(Vec::new()));
    assert_eq!(d.call_log.len(), 2);
    assert_eq!(d.call_log[1].capacity, 0);
}

#[test]
fn forced_count_equal_to_truth_is_no_fault() {
    let mut d = query_driver(vec![21, 22, 23], Vec::new());
    d.force_written = Some(3);
    let p = video_queue(&mut d);
    let r = p.query_formats(&mut d, 9, 90);
    assert_eq!(r, Ok(vec![21, 22, 23]));
}

#[test]
fn misreported_written_count_faults_instead_of_truncating() {
    let mut d = query_driver(vec![21, 22, 23], Vec::new());
    d.force_written = Some(2);
    let p = video_queue(&mut d);
    let r = p.query_formats(&mut d, 9, 90);
    assert_eq!(r, Err(QueryError::CountMismatch { requested: 3, written: 2 }));
}

#[test]
fn fill_phase_faults_on_mismatch_before_reading_status() {
    let mut d = query_driver(vec![21, 22, 23], Vec::new());
    d.force_written = Some(7);
    d.formats_status = -5;
    let p = video_queue(&mut d);
    let r = p.get_physical_device_video_format_properties(&mut d, 9, 90, 3);
    assert_eq!(r, Err(QueryError::CountMismatch { requested: 3, written: 7 }));
}

#[test]
fn format_query_surfaces_driver_status_verbatim() {
    let mut d = query_driver(vec![21, 22, 23], Vec::new());
    d.formats_status = -7;
    let p = video_queue(&mut d);
    let r = p.query_formats(&mut d, 9, 90);
    assert_eq!(r, Err(QueryError::Driver(Status { code: -7 })));
}

#[test]
fn len_phase_reports_the_true_count() {
    let mut d = query_driver(vec![21, 22, 23], Vec::new());
    let p = video_queue(&mut d);
    d.call_log.clear();
    let n = p.get_physical_device_video_format_properties_len(&mut d, 9, 90);
    assert_eq!(n, 3);
    assert_eq!(d.call_log.len(), 1);
    assert!(!d.call_log[0].has_buffer);
}

#[test]
fn fill_phase_honours_a_smaller_buffer() {
    let mut d = query_driver(vec![41, 42, 43, 44, 45], Vec::new());
    let p = video_queue(&mut d);
    let r = p.get_physical_device_video_format_properties(&mut d, 9, 90, 2);
    assert_eq!(r, Ok(vec![41, 42]));
}

#[test]
fn memory_requirements_returned_in_driver_order() {
    let mut d = query_driver(Vec::new(), vec![31, 32]);
    let p = video_queue(&mut d);
    d.call_log.clear();
    let r = p.get_video_session_memory_requirements(&mut d, 5, 2);
    assert_eq!(r, Ok(vec![31, 32]));
    assert_eq!(d.call_log.len(), 1);
    assert_eq!(d.call_log[0].addr, ADDR_BASE + 5);
    assert_eq!(d.call_log[0].arg, 5);
    assert!(d.call_log[0].has_buffer);
    assert_eq!(d.call_log[0].capacity, 2);
}

#[test]
fn memory_requirements_fault_on_misreported_count() {
    let mut d = query_driver(Vec::new(), vec![31, 32]);
    d.force_written = Some(1);
    let p = video_queue(&mut d);
    let r = p.get_video_session_memory_requirements(&mut d, 5, 2);
    assert_eq!(r, Err(QueryError::CountMismatch { requested: 2, written: 1 }));
}

#[test]
fn capabilities_value_is_written_through() {
    let mut d = query_driver(Vec::new(), Vec::new());
    let p = video_queue(&mut d);
    let mut caps: u64 = 0;
    let r = p.get_physical_device_video_capabilities(&mut d, 9, 91, &mut caps);
    assert_eq!(r, Ok(()));
    assert_eq!(caps, 77);
    assert_eq!(d.call_log.last().unwrap().addr, ADDR_BASE + 1);
    assert_eq!(d.call_log.last().unwrap().arg, 91);
}

#[test]
fn capabilities_status_failure_is_surfaced() {
    let mut d = query_driver(Vec::new(), Vec::new());
    d.capabilities_status = -2;
    let p = video_queue(&mut d);
    let mut caps: u64 = 0;
    let r = p.get_physical_device_video_capabilities(&mut d, 9, 91, &mut caps);
    assert_eq!(r, Err(Status { code: -2 }));
    assert!(!Status { code: -2 }.is_success());
    assert!(Status { code: 0 }.is_success());
}
