use iap_bridge::registry::Registry;
use iap_bridge::relay::Listeners;

#[test]
fn test_dispatch_delivers_to_exact_subscribers() {
    let mut registry: Registry<u64> = Registry::new();
    registry.register("transactionUpdated".to_string(), 1, 101);
    registry.register("transactionUpdated".to_string(), 2, 102);
    registry.register("otherEvent".to_string(), 3, 103);

    let plan = registry.dispatch(&"transactionUpdated".to_string(), &"{\"state\":\"done\"}".to_string());
    assert_eq!(plan.len(), 2);
    let mut ids: Vec<u32> = plan.iter().map(|d| d.id).collect();
    ids.sort();
    assert_eq!(ids, vec![1, 2]);
    for delivery in &plan {
        assert_eq!(delivery.payload, "{\"state\":\"done\"}");
    }
}

#[test]
fn test_dispatch_unaffected_by_other_events() {
    let mut registry: Registry<u64> = Registry::new();
    registry.register("a".to_string(), 1, 11);
    registry.register("b".to_string(), 1, 21);
    registry.register("b".to_string(), 9, 29);

    let plan = registry.dispatch(&"a".to_string(), &"{}".to_string());
    assert_eq!(plan.len(), 1);
    assert_eq!(plan[0].id, 1);
}

#[test]
fn test_register_same_id_replaces_handle() {
    let mut registry: Registry<u64> = Registry::new();
    registry.register("a".to_string(), 7, 100);
    registry.register("a".to_string(), 7, 200);
    assert_eq!(registry.subscriber_ids(&"a".to_string()), vec![7]);
    assert_eq!(registry.handle_of(&"a".to_string(), 7), Some(&200));
}

#[test]
fn test_same_id_across_events_is_independent() {
    let mut registry: Registry<u64> = Registry::new();
    registry.register("a".to_string(), 7, 100);
    registry.register("b".to_string(), 7, 200);
    registry.remove(&"a".to_string(), 7);
    assert!(registry.subscriber_ids(&"a".to_string()).is_empty());
    assert_eq!(registry.handle_of(&"b".to_string(), 7), Some(&200));
}

#[test]
fn test_remove_unregistered_id_is_noop() {
    let mut registry: Registry<u64> = Registry::new();
    registry.register("a".to_string(), 1, 11);
    registry.register("a".to_string(), 2, 12);

    registry.remove(&"a".to_string(), 99);
    registry.remove(&"never".to_string(), 1);

    let ids = registry.subscriber_ids(&"a".to_string());
    assert_eq!(ids.len(), 2);
    let plan = registry.dispatch(&"a".to_string(), &"{}".to_string());
    assert_eq!(plan.len(), 2);
}

#[test]
fn test_dispatch_without_subscribers_is_empty() {
    let registry: Registry<u64> = Registry::new();
    let plan = registry.dispatch(&"nobody".to_string(), &"{}".to_string());
    assert!(plan.is_empty());

    let mut registry: Registry<u64> = Registry::new();
    registry.register("a".to_string(), 1, 11);
    registry.remove(&"a".to_string(), 1);
    let plan = registry.dispatch(&"a".to_string(), &"{}".to_string());
    assert!(plan.is_empty());
}

#[test]
fn test_hundred_subscribers_across_ten_events() {
    let mut registry: Registry<u64> = Registry::new();
    for event_index in 0..10u32 {
        let event = format!("event-{}", event_index);
        for sub_index in 0..10u32 {
            let id = event_index * 10 + sub_index;
            registry.register(event.clone(), id, id as u64 + 1000);
        }
    }
    for event_index in 0..10u32 {
        let event = format!("event-{}", event_index);
        let payload = format!("{{\"event\":{}}}", event_index);
        let plan = registry.dispatch(&event, &payload);
        assert_eq!(plan.len(), 10);
        let mut ids: Vec<u32> = plan.iter().map(|d| d.id).collect();
        ids.sort();
        let expected: Vec<u32> = (0..10u32).map(|s| event_index * 10 + s).collect();
        assert_eq!(ids, expected);
        for delivery in &plan {
            assert_eq!(delivery.payload, payload);
        }
    }
}

#[test]
fn test_trigger_before_initialization_is_noop() {
    let listeners: Listeners<u64> = Listeners::new();
    let result = iap_bridge::relay::trigger(&listeners, &"a".to_string(), &"{}".to_string());
    match result {
        Ok(plan) => assert!(plan.is_empty()),
        Err(_) => panic!("an event with no subscribers must never error"),
    }
}

#[test]
fn test_trigger_after_initialization_plans_fanout() {
    let mut listeners: Listeners<u64> = Listeners::new();
    listeners
        .register_listener("transactionUpdated".to_string(), 5, 55)
        .unwrap();
    let result = iap_bridge::relay::trigger(&listeners, &"transactionUpdated".to_string(), &"{}".to_string());
    match result {
        Ok(plan) => {
            assert_eq!(plan.len(), 1);
            assert_eq!(plan[0].id, 5);
        }
        Err(_) => panic!("trigger must succeed once the table exists"),
    }
}

#[test]
fn test_ensure_init_is_idempotent() {
    let mut listeners: Listeners<u64> = Listeners::new();
    listeners.ensure_init();
    listeners.register_listener("a".to_string(), 1, 11).unwrap();
    listeners.ensure_init();
    let plan = iap_bridge::relay::trigger(&listeners, &"a".to_string(), &"{}".to_string()).unwrap();
    assert_eq!(plan.len(), 1);
}

#[test]
fn test_remove_listener_before_initialization_is_noop() {
    let mut listeners: Listeners<u64> = Listeners::new();
    listeners.remove_listener(&"a".to_string(), 1).unwrap();
    let plan = iap_bridge::relay::trigger(&listeners, &"a".to_string(), &"{}".to_string()).unwrap();
    assert!(plan.is_empty());
    listeners.register_listener("a".to_string(), 1, 11).unwrap();
    let plan = iap_bridge::relay::trigger(&listeners, &"a".to_string(), &"{}".to_string()).unwrap();
    assert_eq!(plan.len(), 1);
}

#[test]
fn test_remove_listener_twice_is_idempotent() {
    let mut listeners: Listeners<u64> = Listeners::new();
    listeners.register_listener("a".to_string(), 1, 11).unwrap();
    listeners.register_listener("a".to_string(), 2, 12).unwrap();
    listeners.remove_listener(&"a".to_string(), 1).unwrap();
    listeners.remove_listener(&"a".to_string(), 1).unwrap();
    let plan = iap_bridge::relay::trigger(&listeners, &"a".to_string(), &"{}".to_string()).unwrap();
    assert_eq!(plan.len(), 1);
    assert_eq!(plan[0].id, 2);
}

#[test]
fn test_remove_listener_after_initialization() {
    let mut listeners: Listeners<u64> = Listeners::new();
    listeners.register_listener("a".to_string(), 1, 11).unwrap();
    listeners.register_listener("a".to_string(), 2, 12).unwrap();
    listeners.remove_listener(&"a".to_string(), 1).unwrap();
    let plan = iap_bridge::relay::trigger(&listeners, &"a".to_string(), &"{}".to_string()).unwrap();
    assert_eq!(plan.len(), 1);
    assert_eq!(plan[0].id, 2);
}

#[test]
fn test_fanout_through_channel_handles() {
    let mut listeners: Listeners<std::sync::mpsc::Sender<String>> = Listeners::new();
    let (tx_a, rx_a) = std::sync::mpsc::channel();
    let (tx_b, rx_b) = std::sync::mpsc::channel();
    let (tx_other, rx_other) = std::sync::mpsc::channel();
    listeners.register_listener("transactionUpdated".to_string(), 1, tx_a).unwrap();
    listeners.register_listener("transactionUpdated".to_string(), 2, tx_b).unwrap();
    listeners.register_listener("otherEvent".to_string(), 3, tx_other).unwrap();

    let event = "transactionUpdated".to_string();
    let plan = iap_bridge::relay::trigger(&listeners, &event, &"{\"n\":1}".to_string()).unwrap();
    assert_eq!(plan.len(), 2);
    for delivery in plan {
        let channel = listeners.handle_of(&event, delivery.id).unwrap();
        channel.send(delivery.payload).unwrap();
    }
    assert_eq!(rx_a.try_recv().unwrap(), "{\"n\":1}");
    assert_eq!(rx_b.try_recv().unwrap(), "{\"n\":1}");
    assert!(rx_a.try_recv().is_err());
    assert!(rx_b.try_recv().is_err());
    assert!(rx_other.try_recv().is_err());
}
