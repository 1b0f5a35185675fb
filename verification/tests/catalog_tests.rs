use sharkos_bridge::actions::translate_action_to_bt;
use sharkos_bridge::commands::{bt_command_map, init_bt_commands};
use sharkos_bridge::device::DeviceInfo;
use sharkos_bridge::ui_pages::{
    get_menu_page, get_page, menu_layout, next_menu_page, prev_menu_page, set_menu, get_menu,
    MenuState, PageContent,
};

#[test]
fn catalog_holds_the_full_command_set() {
    let registry = init_bt_commands();
    assert_eq!(registry.commands.len(), 36);
    assert!(registry.contains_key("wifi.scan.start"));
    assert!(registry.contains_key("status.reporting.stop"));
    assert!(!registry.contains_key("wifi.scan"));
    let desc = registry.lookup("ble.scan.stop").unwrap();
    assert_eq!(desc, "Stop BLE scanning immediately. No params.");
}

#[test]
fn catalog_initialization_is_idempotent() {
    let a = init_bt_commands();
    let b = bt_command_map();
    assert_eq!(a.commands.len(), b.commands.len());
    for c in &a.commands {
        assert_eq!(
            b.lookup(c.key.as_str()).as_deref(),
            Some(c.description.as_str())
        );
    }
}

#[test]
fn every_translation_target_is_a_catalog_key() {
    let registry = bt_command_map();
    let actions = [
        "wifi-scanner", "wifi-scan", "wifi-scan-stop", "wifi-sniffer", "wifi-sniffer-stop",
        "ble-scanner", "ble-scan-stop", "nrf-scanner", "nrf-scan-stop", "subghz",
        "sub-ghz-scanner", "subghz-stop", "sub-ghz-playback", "sub-ghz-recorder",
        "sub-ghz-packet-sender", "sub-ghz-disruptor", "oscilloscope", "oscilloscope-stop",
        "i2c-scanner", "cell-scan", "cell-scan-stop", "sd", "ir-recv", "ir-stop", "battery",
    ];
    for a in actions {
        let key = translate_action_to_bt(a).expect(a);
        assert!(registry.contains_key(key.as_str()), "{} -> {}", a, key);
    }
}

#[test]
fn translation_fails_closed() {
    assert_eq!(translate_action_to_bt("does-not-exist"), None);
    assert_eq!(translate_action_to_bt(""), None);
    assert_eq!(translate_action_to_bt("wifi-scanner-extra"), None);
}

#[test]
fn known_translations_hold() {
    assert_eq!(
        translate_action_to_bt("wifi-scanner").as_deref(),
        Some("wifi.scan.start")
    );
    assert_eq!(
        translate_action_to_bt("sub-ghz-scanner").as_deref(),
        Some("subghz.read.start")
    );
    assert_eq!(translate_action_to_bt("sd").as_deref(), Some("sd.info"));
}

#[test]
fn device_info_carries_the_pairing_fields() {
    let d = DeviceInfo {
        name: "ESP32".to_string(),
        address: "AA:BB:CC:DD:EE:FF".to_string(),
        vendor: None,
        bonded: true,
    };
    let d2 = d.clone();
    assert_eq!(d2.name, "ESP32");
    assert_eq!(d2.address, "AA:BB:CC:DD:EE:FF");
    assert!(d2.vendor.is_none());
    assert!(d2.bonded);
}

#[test]
fn main_menu_page_lists_the_tools() {
    match get_page(0) {
        PageContent::Menu { title, items } => {
            assert_eq!(title, "SharkOS Main Menu");
            assert_eq!(items.len(), 15);
            assert_eq!(items[0].label, "Infrared");
            assert_eq!(items[0].target_page, 1);
            assert_eq!(items[14].label, "NFC Raw Signal Reader");
            assert_eq!(items[14].target_page, 15);
        },
        PageContent::Text { .. } => panic!("page 0 must be the menu"),
    }
}

#[test]
fn tool_pages_and_fallback_are_text() {
    match get_page(2) {
        PageContent::Text { title, content } => {
            assert_eq!(title, "Sub-GHz");
            assert_eq!(content, "Placeholder...");
        },
        PageContent::Menu { .. } => panic!("page 2 must be text"),
    }
    match get_page(99) {
        PageContent::Text { title, content } => {
            assert_eq!(title, "SharkOS");
            assert_eq!(content, "Placeholder");
        },
        PageContent::Menu { .. } => panic!("fallback must be text"),
    }
}

#[test]
fn menu_grid_layout_follows_the_two_row_four_column_rule() {
    // the 15-item main menu: 8 columns of two rows, 2 pages of 4 columns
    let l = menu_layout(15, 0);
    assert_eq!(l.columns, 8);
    assert_eq!(l.pages, 2);
    assert_eq!(l.current_page, 0);
    assert_eq!((l.start_col, l.end_col), (0, 4));

    let l2 = menu_layout(15, 1);
    assert_eq!((l2.start_col, l2.end_col), (4, 8));

    // a page request past the end is clamped to the last page
    let l3 = menu_layout(15, 9);
    assert_eq!(l3.current_page, 1);

    // no items: nothing visible
    let l4 = menu_layout(0, 0);
    assert_eq!(l4.pages, 0);
    assert_eq!((l4.start_col, l4.end_col), (0, 0));
}

#[test]
fn menu_pagination_is_clamped() {
    let mut st = MenuState::new();
    assert_eq!(get_menu_page(&st), 0);
    next_menu_page(&mut st, 3);
    next_menu_page(&mut st, 3);
    assert_eq!(get_menu_page(&st), 2);
    next_menu_page(&mut st, 3);
    assert_eq!(get_menu_page(&st), 2);
    prev_menu_page(&mut st);
    assert_eq!(get_menu_page(&st), 1);
    prev_menu_page(&mut st);
    prev_menu_page(&mut st);
    assert_eq!(get_menu_page(&st), 0);
    next_menu_page(&mut st, 0);
    assert_eq!(get_menu_page(&st), 0);
    set_menu(&mut st, 4);
    assert_eq!(get_menu(&st), 4);
}
