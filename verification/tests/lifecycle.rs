use video_proxy::Device;
use video_proxy::Instance;
use video_proxy::Status;
use video_proxy::StubDriver;
use video_proxy::VideoDecodeQueue;
use video_proxy::VideoEncodeQueue;
use video_proxy::VideoQueue;

const ADDR_BASE: u64 = 100;

fn session_driver() -> StubDriver {
    let mut exports: Vec<(u64, u64)> = Vec::new();
    for sym in 1..=14u64 {
        exports.push((sym, ADDR_BASE + sym));
    }
    StubDriver::new(exports, Vec::new(), Vec::new(), 0, 5, 6)
}

#[test]
fn create_session_success_yields_valid_identifier() {
    let mut d = session_driver();
    let p = video_queue_proxy(&mut d);
    d.call_log.clear();
    let r = p.create_video_session(&mut d, 70, None);
    assert_eq!(r, Ok(5));
    assert_ne!(r.unwrap(), 0);
    assert_eq!(d.call_log.len(), 1);
    assert_eq!(d.call_log[0].addr, ADDR_BASE + 3);
    assert_eq!(d.call_log[0].context, 11);
    assert_eq!(d.call_log[0].arg, 70);
}

#[test]
fn create_session_failure_yields_no_identifier_and_no_cleanup() {
    let mut d = session_driver();
    d.create_session_status = -4;
    let p = video_queue_proxy(&mut d);
    d.call_log.clear();
    let r = p.create_video_session(&mut d, 70, None);
    assert_eq!(r, Err(Status { code: -4 }));
    assert_eq!(d.call_log.len(), 1);
    assert_eq!(d.call_log[0].addr, ADDR_BASE + 3);
}

#[test]
fn create_parameters_success_and_failure() {
    let mut d = session_driver();
    let p = video_queue_proxy(&mut d);
    let r = p.create_video_session_parameters(&mut d, 71, None);
    assert_eq!(r, Ok(6));
    d.create_parameters_status = -9;
    d.call_log.clear();
    let r = p.create_video_session_parameters(&mut d, 71, None);
    assert_eq!(r, Err(Status { code: -9 }));
    assert_eq!(d.call_log.len(), 1);
}

#[test]
fn update_parameters_surfaces_status() {
    let mut d = session_driver();
    let p = video_queue_proxy(&mut d);
    assert_eq!(p.update_video_session_parameters(&mut d, 6, 72), Ok(()));
    d.update_status = -3;
    assert_eq!(p.update_video_session_parameters(&mut d, 6, 72), Err(Status { code: -3 }));
    let rec = *d.call_log.last().unwrap();
    assert_eq!(rec.addr, ADDR_BASE + 8);
    assert_eq!(rec.arg, 6);
}

#[test]
fn bind_memory_forwards_array_length_and_status() {
    let mut d = session_driver();
    let p = video_queue_proxy(&mut d);
    d.call_log.clear();
    let infos: Vec<u64> = vec![81, 82, 83];
    assert_eq!(p.bind_video_session_memory(&mut d, 5, &infos), Ok(()));
    let rec = d.call_log[0];
    assert_eq!(rec.addr, ADDR_BASE + 6);
    assert_eq!(rec.arg, 5);
    assert!(rec.has_buffer);
    assert_eq!(rec.capacity, 3);
    d.bind_status = -6;
    assert_eq!(p.bind_video_session_memory(&mut d, 5, &infos), Err(Status { code: -6 }));
}

#[test]
fn destroy_calls_are_forwarded_once() {
    let mut d = session_driver();
    let p = video_queue_proxy(&mut d);
    d.call_log.clear();
    p.destroy_video_session(&mut d, 5, None);
    p.destroy_video_session_parameters(&mut d, 6, None);
    assert_eq!(d.call_log.len(), 2);
    assert_eq!(d.call_log[0].addr, ADDR_BASE + 4);
    assert_eq!(d.call_log[0].arg, 5);
    assert_eq!(d.call_log[1].addr, ADDR_BASE + 9);
    assert_eq!(d.call_log[1].arg, 6);
}

#[test]
fn coding_scope_commands_are_forwarded() {
    let mut d = session_driver();
    let p = video_queue_proxy(&mut d);
    d.call_log.clear();
    p.cmd_begin_video_coding(&mut d, 40, 50);
    p.cmd_control_video_coding(&mut d, 40, 51);
    p.cmd_end_video_coding(&mut d, 40, 52);
    assert_eq!(d.call_log.len(), 3);
    assert_eq!(d.call_log[0].addr, ADDR_BASE + 10);
    assert_eq!(d.call_log[1].addr, ADDR_BASE + 12);
    assert_eq!(d.call_log[2].addr, ADDR_BASE + 11);
    for rec in &d.call_log {
        assert_eq!(rec.context, 40);
        assert!(!rec.has_buffer);
    }
}

#[test]
fn decode_and_encode_commands_are_forwarded() {
    let mut d = session_driver();
    let instance = Instance::new(10);
    let device = Device::new(11);
    let dec = VideoDecodeQueue::new(&mut d, &instance, &device);
    let enc = VideoEncodeQueue::new(&mut d, &instance);
    d.call_log.clear();
    dec.cmd_decode_video(&mut d, 40, 60);
    enc.cmd_encode_video(&mut d, 40, 61);
    assert_eq!(d.call_log.len(), 2);
    assert_eq!(d.call_log[0].addr, ADDR_BASE + 13);
    assert_eq!(d.call_log[0].arg, 60);
    assert_eq!(d.call_log[1].addr, ADDR_BASE + 14);
    assert_eq!(d.call_log[1].arg, 61);
}

fn video_queue_proxy(d: &mut StubDriver) -> VideoQueue {
    let instance = Instance::new(10);
    let device = Device::new(11);
    VideoQueue::new(d, &instance, &device)
}
