use packet_sniffer::collect_signal::CollectSignal;
use packet_sniffer::collect_signals::CollectSignals;
use packet_sniffer::shared::HashmapLock;

#[test]
fn define_collection() {
    let _ = CollectSignal::<String, u8, u8>::new();
}

#[test]
fn collect_signal_push_signal() {
    let mut cs = CollectSignal::<u8, String, String>::new();
    cs.insert_command(10);
}

#[test]
fn collect_signal_pop_signal() {
    let mut cs = CollectSignal::<u8, String, String>::new();
    cs.insert_command(10);
    assert_eq!(10, cs.extract_command().unwrap())
}

#[test]
fn collect_signal_push_and_search() {
    let mut cs = CollectSignal::<u8, (String, String), String>::new();
    cs.insert_collection(("Steo".to_string(), "Steo".to_string()), "Albo".to_string());
    assert_eq!(cs.search_entry(("Steo".to_string(), "Steo".to_string())).unwrap(), "Albo".to_string());
}

#[test]
fn collect_signals_push_signal() {
    let mut cs = CollectSignals::<u8, String, String>::new();
    cs.insert_signal(10);
}

#[test]
fn collect_signals_pop_signal() {
    let mut cs = CollectSignals::<u8, String, String>::new();
    cs.insert_signal(10);
    assert_eq!(10, cs.extract_signal().unwrap())
}

#[test]
fn collect_signals_push_and_search() {
    let mut cs = CollectSignals::<u8, (String, String), String>::new();
    cs.insert_entry(("Steo".to_string(), "Steo".to_string()), "Albo".to_string());
    assert_eq!(cs.search_entry(("Steo".to_string(), "Steo".to_string())).unwrap(), "Albo".to_string());
}

#[test]
fn signals_come_out_in_order_and_clones_share() {
    let mut cs = CollectSignals::<u8, u8, u8>::new();
    let mut other = cs.clone();
    cs.insert_signal(1);
    other.insert_signal(2);
    assert_eq!(cs.extract_signal(), Some(1));
    assert_eq!(cs.extract_signal(), Some(2));
    assert_eq!(other.extract_signal(), None);
    other.insert_entry(3, 4);
    assert_eq!(cs.search_entry(3), Some(4));
    assert_eq!(cs.search_entry(5), None);
    let (mut map, handle) = cs.lock_hashmap();
    map.insert(5, 6);
    handle.release_write(map);
    let all = cs.produce_hashmap();
    assert_eq!(all.len(), 2);
    assert_eq!(all.get(&5), Some(&6));
}

#[test]
fn test_empty() {
    let hmap: HashmapLock<(), ()> = HashmapLock::new();
    assert_eq!(hmap.is_empty(), true);
}

#[test]
fn hashmap_lock_handles_share_the_map() {
    let hmap = HashmapLock::<u32, u32>::new();
    let other = hmap.clone();
    other.insert(0, 0);
    other.insert(1, 1);
    assert_eq!(hmap.get(&0), Some(0));
    assert_eq!(hmap.get(&1), Some(1));
    assert_eq!(hmap.get(&2), None);
    assert!(!hmap.is_empty());
}
