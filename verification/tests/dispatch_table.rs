use tick_driver::dispatch::{
    bt_bb, bt_mac, empty_table, lp_timer, register_bt_bb, register_bt_mac, register_lp_timer,
    register_rwble, register_wifi, rwble, wifi_mac, wifi_pwr, Binding,
};

#[test]
fn unregistered_lines_are_no_ops() {
    // No binding registered: every line dispatches to nothing and the table
    // is left untouched.
    let t = empty_table();
    assert_eq!(wifi_mac(&t), None);
    assert_eq!(wifi_pwr(&t), None);
    assert_eq!(lp_timer(&t), None);
    assert_eq!(bt_mac(&t), None);
    assert_eq!(rwble(&t), None);
    assert_eq!(bt_bb(&t), None);
    assert_eq!(t, empty_table());
}

#[test]
fn registered_binding_is_invoked_once_per_event_with_its_context() {
    let mut t = empty_table();
    let b = Binding { handler: 0x4000_1234, context: 0x3fc0_00a8 };
    register_wifi(&mut t, b);
    let mut calls = 0;
    for _ in 0..3 {
        // one hardware-reported event: one dispatch, one handler invocation
        match wifi_mac(&t) {
            Some(got) => {
                assert_eq!(got.context, 0x3fc0_00a8);
                assert_eq!(got.handler, 0x4000_1234);
                calls += 1;
            },
            None => panic!("registered line must dispatch"),
        }
    }
    assert_eq!(calls, 3);
}

#[test]
fn wifi_slot_is_shared_by_both_wifi_lines() {
    let mut t = empty_table();
    let b = Binding { handler: 0x4000_aaaa, context: 0x3fc0_bbbb };
    register_wifi(&mut t, b);
    assert_eq!(wifi_mac(&t), Some(b));
    assert_eq!(wifi_pwr(&t), Some(b));
    // the Bluetooth slots stay empty and undisturbed
    assert_eq!(lp_timer(&t), None);
    assert_eq!(bt_mac(&t), None);
}

#[test]
fn each_bluetooth_slot_dispatches_only_its_own_line() {
    let mut t = empty_table();
    let lp = Binding { handler: 0x4000_0001, context: 0x10 };
    let mac = Binding { handler: 0x4000_0002, context: 0x20 };
    let rw = Binding { handler: 0x4000_0003, context: 0x30 };
    let bb = Binding { handler: 0x4000_0004, context: 0x40 };
    register_lp_timer(&mut t, lp);
    register_bt_mac(&mut t, mac);
    register_rwble(&mut t, rw);
    register_bt_bb(&mut t, bb);
    assert_eq!(lp_timer(&t), Some(lp));
    assert_eq!(bt_mac(&t), Some(mac));
    assert_eq!(rwble(&t), Some(rw));
    assert_eq!(bt_bb(&t), Some(bb));
    assert_eq!(wifi_mac(&t), None);
}
