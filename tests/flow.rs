use packet_sniffer::aggregate::{capture_action, record_frame, record_shared, reporter_action, CaptureAction, ReporterAction};
use packet_sniffer::flow::{FlowAggregate, FlowMap, FlowTable};
use packet_sniffer::packet::{Device, PacketExt, TimeVal};
use packet_sniffer::pkt_parser::Protocol;
use packet_sniffer::sniffer::RunStatus;

#[test]
fn aggregation_merge() {
    let mut map = FlowMap::new();
    map.merge("192.168.1.1".to_string(), 53, Protocol::UDP, 100, 1000);
    map.merge("192.168.1.1".to_string(), 53, Protocol::UDP, 250, 1500);
    assert_eq!(map.len(), 1);
    let a = map.get(&"192.168.1.1".to_string(), 53).unwrap();
    assert_eq!(a, FlowAggregate { protocol: Protocol::UDP, bytes: 350, first: 1000, last: 1500 });
}

#[test]
fn merge_keeps_flows_apart() {
    let mut map = FlowMap::new();
    map.merge("10.0.0.1".to_string(), 80, Protocol::TCP, 10, 5);
    map.merge("10.0.0.1".to_string(), 443, Protocol::TCP, 20, 6);
    map.merge("10.0.0.2".to_string(), 80, Protocol::TCP, 30, 7);
    assert_eq!(map.len(), 3);
    assert_eq!(map.get(&"10.0.0.1".to_string(), 80).unwrap().bytes, 10);
    assert_eq!(map.get(&"10.0.0.1".to_string(), 443).unwrap().bytes, 20);
    assert_eq!(map.get(&"10.0.0.2".to_string(), 80).unwrap().bytes, 30);
    assert!(map.get(&"10.0.0.3".to_string(), 80).is_none());
    assert_eq!(map.entry(1).port, 443);
}

#[test]
fn merge_widens_the_time_span_and_takes_the_latest_protocol() {
    let mut map = FlowMap::new();
    map.merge("a".to_string(), 1, Protocol::TCP, 5, 2000);
    map.merge("a".to_string(), 1, Protocol::UDP, 5, 1000);
    map.merge("a".to_string(), 1, Protocol::UDP, 0, 3000);
    let a = map.get(&"a".to_string(), 1).unwrap();
    assert_eq!(a, FlowAggregate { protocol: Protocol::UDP, bytes: 10, first: 1000, last: 3000 });
}

#[test]
fn merge_saturates_the_byte_count() {
    let mut map = FlowMap::new();
    map.merge("a".to_string(), 1, Protocol::TCP, u64::MAX - 1, 1);
    map.merge("a".to_string(), 1, Protocol::TCP, 5, 2);
    assert_eq!(map.get(&"a".to_string(), 1).unwrap().bytes, u64::MAX);
}

#[test]
fn concurrent_merge_sums_per_key() {
    let table = FlowTable::new();
    let mut expected = [0u64; 8];
    for worker in 0..5u64 {
        let handle = table.clone();
        for i in 0..20u64 {
            let key = (worker * 20 + i) % 8;
            let bytes = worker * 100 + i;
            handle.merge(format!("10.0.0.{}", key), 1000, Protocol::TCP, bytes, i);
            expected[key as usize] += bytes;
        }
    }
    let snapshot = table.snapshot();
    assert_eq!(snapshot.len(), 8);
    for key in 0..8usize {
        let a = snapshot.get(&format!("10.0.0.{}", key), 1000).unwrap();
        assert_eq!(a.bytes, expected[key]);
        assert!(a.first <= a.last);
    }
}

#[test]
fn snapshot_is_independent_of_later_merges() {
    let table = FlowTable::new();
    table.merge("a".to_string(), 1, Protocol::UDP, 7, 1);
    let snapshot = table.snapshot();
    table.merge("a".to_string(), 1, Protocol::UDP, 7, 2);
    table.merge("b".to_string(), 2, Protocol::UDP, 1, 3);
    assert_eq!(snapshot.len(), 1);
    assert_eq!(snapshot.get(&"a".to_string(), 1).unwrap().bytes, 7);
    assert_eq!(table.snapshot().get(&"a".to_string(), 1).unwrap().bytes, 14);
}

fn udp_frame() -> Vec<u8> {
    let mut f = vec![80u8, 235, 113, 35, 142, 103, 152, 0, 106, 4, 85, 32, 8, 0];
    f.extend_from_slice(&[69, 0, 0, 40, 0, 0, 0, 0, 64, 17, 0, 0, 192, 168, 1, 1, 192, 168, 1, 21]);
    f.extend_from_slice(&[0, 53, 234, 64, 0, 20, 0, 0]);
    f.extend_from_slice(&[7u8; 12]);
    f
}

#[test]
fn recorded_bytes_are_the_transport_payload() {
    let dev = Device { name: "eth0".to_string(), desc: None, addresses: vec![vec![192, 168, 1, 21]] };
    let mut map = FlowMap::new();
    let frame = udp_frame();
    assert!(record_frame(&mut map, &dev, PacketExt::new(&frame, TimeVal { sec: 1, u_sec: 0 })).is_ok());
    assert!(record_frame(&mut map, &dev, PacketExt::new(&frame, TimeVal { sec: 2, u_sec: 0 })).is_ok());
    let a = map.get(&"192.168.1.1".to_string(), 53).unwrap();
    assert_eq!(a.bytes, 24);
    assert_ne!(a.bytes as usize, 2 * frame.len());
    assert_eq!(a.first, 1_000_000);
    assert_eq!(a.last, 2_000_000);
    assert!(record_frame(&mut map, &dev, PacketExt::new(&frame[..20], TimeVal { sec: 3, u_sec: 0 })).is_err());
    assert_eq!(map.get(&"192.168.1.1".to_string(), 53).unwrap().bytes, 24);
    let table = FlowTable::new();
    assert!(record_shared(&table, &dev, PacketExt::new(&frame, TimeVal { sec: 1, u_sec: 0 })).is_ok());
    assert_eq!(table.snapshot().get(&"192.168.1.1".to_string(), 53).unwrap().bytes, 12);
}

#[test]
fn tasks_follow_the_state() {
    assert_eq!(capture_action(&RunStatus::Running), CaptureAction::Capture);
    assert_eq!(capture_action(&RunStatus::Wait), CaptureAction::Block);
    assert_eq!(capture_action(&RunStatus::Stop), CaptureAction::Exit);
    assert_eq!(capture_action(&RunStatus::Error("x".to_string())), CaptureAction::Exit);
    assert_eq!(reporter_action(&RunStatus::Running), ReporterAction::Report);
    assert_eq!(reporter_action(&RunStatus::Wait), ReporterAction::Block);
    assert_eq!(reporter_action(&RunStatus::Stop), ReporterAction::Exit);
}
