use video_proxy::symbols::SYM_CMD_DECODE_VIDEO;
use video_proxy::Device;
use video_proxy::Instance;
use video_proxy::StubDriver;
use video_proxy::VideoDecodeQueue;
use video_proxy::VideoEncodeQueue;
use video_proxy::VideoQueue;

const ADDR_BASE: u64 = 100;

fn driver_with_all_exports() -> StubDriver {
    let mut exports: Vec<(u64, u64)> = Vec::new();
    for sym in 1..=14u64 {
        exports.push((sym, ADDR_BASE + sym));
    }
    StubDriver::new(exports, vec![21, 22, 23], vec![31, 32], 77, 5, 6)
}

#[test]
fn loader_called_once_per_symbol_in_order() {
    let mut d = driver_with_all_exports();
    let instance = Instance::new(10);
    let device = Device::new(11);
    let _p = VideoQueue::new(&mut d, &instance, &device);
    let expected: Vec<u64> = (1..=12u64).collect();
    assert_eq!(d.resolve_log, expected);
    assert!(d.call_log.is_empty());
}

#[test]
fn each_construction_resolves_again_independently() {
    let mut d = driver_with_all_exports();
    let instance = Instance::new(10);
    let device = Device::new(11);
    let _p1 = VideoQueue::new(&mut d, &instance, &device);
    let _p2 = VideoQueue::new(&mut d, &instance, &device);
    let _dec = VideoDecodeQueue::new(&mut d, &instance, &device);
    let _enc = VideoEncodeQueue::new(&mut d, &instance);
    let mut expected: Vec<u64> = (1..=12u64).collect();
    expected.extend(1..=12u64);
    expected.push(13);
    expected.push(14);
    assert_eq!(d.resolve_log, expected);
}

#[test]
fn table_holds_the_resolved_addresses() {
    let mut d = driver_with_all_exports();
    let instance = Instance::new(10);
    let device = Device::new(11);
    let p = VideoQueue::new(&mut d, &instance, &device);
    assert_eq!(p.fp().len(), 12);
    for slot in 0..12usize {
        let sym = slot as u64 + 1;
        assert_eq!(p.fp().entry_point(slot), ADDR_BASE + sym);
        assert!(p.fp().is_resolved(slot));
    }
    assert_eq!(p.device(), 11);
}

#[test]
fn unresolved_symbol_leaves_a_null_slot() {
    let mut exports: Vec<(u64, u64)> = Vec::new();
    for sym in 1..=12u64 {
        exports.push((sym, ADDR_BASE + sym));
    }
    assert!(!exports.iter().any(|e| e.0 == SYM_CMD_DECODE_VIDEO));
    let mut d = StubDriver::new(exports, Vec::new(), Vec::new(), 0, 5, 6);
    let instance = Instance::new(10);
    let device = Device::new(11);
    let dec = VideoDecodeQueue::new(&mut d, &instance, &device);
    assert_eq!(dec.fp().entry_point(0), 0);
    assert!(!dec.fp().is_resolved(0));
}

#[test]
fn proxies_from_same_context_are_value_independent() {
    let mut d = driver_with_all_exports();
    let instance = Instance::new(10);
    let device = Device::new(11);
    let p1 = VideoQueue::new(&mut d, &instance, &device);
    let p2 = VideoQueue::new(&mut d, &instance, &device);
    for slot in 0..12usize {
        assert_eq!(p1.fp().entry_point(slot), p2.fp().entry_point(slot));
    }
    drop(p1);
    d.call_log.clear();
    p2.cmd_begin_video_coding(&mut d, 40, 41);
    assert_eq!(d.call_log.len(), 1);
    assert_eq!(d.call_log[0].context, 40);
    assert_eq!(d.call_log[0].arg, 41);
}

#[test]
fn owning_handles_are_retained() {
    let mut d = driver_with_all_exports();
    let instance = Instance::new(10);
    let device = Device::new(11);
    assert_eq!(instance.handle(), 10);
    assert_eq!(device.handle(), 11);
    let p = VideoQueue::new(&mut d, &instance, &device);
    let dec = VideoDecodeQueue::new(&mut d, &instance, &device);
    let enc = VideoEncodeQueue::new(&mut d, &instance);
    assert_eq!(p.device(), 11);
    assert_eq!(dec.device(), 11);
    assert_eq!(enc.instance(), 10);
}

#[test]
fn extension_names_are_canonical() {
    assert_eq!(VideoQueue::name(), "VK_KHR_video_queue");
    assert_eq!(VideoDecodeQueue::name(), "VK_KHR_video_decode_queue");
    assert_eq!(VideoEncodeQueue::name(), "VK_KHR_video_encode_queue");
}
