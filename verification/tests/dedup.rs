use fix_gateway::order_manager::OrderManager;

#[test]
fn first_call_accepts_second_rejects() {
    let mut om = OrderManager::new();
    assert!(!om.check_and_insert("K"));
    assert!(om.check_and_insert("K"));
}

#[test]
fn interleaved_keys_do_not_disturb_each_other() {
    let mut om = OrderManager::new();
    assert!(!om.check_and_insert("A"));
    assert!(!om.check_and_insert("B"));
    assert!(om.check_and_insert("A"));
    assert!(om.check_and_insert("B"));
    assert!(!om.check_and_insert("C"));
}

#[test]
fn empty_key_is_deduplicated_like_any_other() {
    let mut om = OrderManager::new();
    assert!(!om.check_and_insert(""));
    assert!(om.check_and_insert(""));
}
