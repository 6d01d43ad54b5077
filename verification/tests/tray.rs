use systray::consts::{
    MFS_CHECKED, MFT_SEPARATOR, MFT_STRING, MIIM_FTYPE, NIF_ICON, NIF_MESSAGE, NIF_TIP, NIM_ADD,
    NIM_DELETE, NIM_MODIFY, WM_TRAY_CALLBACK,
};
use systray::error::os_error;
use systray::menu::{check_flags, enable_flags, MenuEnableFlag, TrayMenu, WaitAction};
use systray::notify::{
    add_icon_request, delete_request, icon_request, tooltip_buffer, tooltip_request,
};
use systray::wide::to_wstring;
use systray::window::{
    icon_data_start, is_quit, menu_command_event, popup_menu_info, route_message, window_class_name,
    window_title, MessageRoute,
};
use systray::{SystrayAction, SystrayError, SystrayEvent};

fn error_text(e: SystrayError) -> String {
    match e {
        SystrayError::OsError(s) => s,
    }
}

#[test]
fn wide_string_of_ascii_is_nul_terminated() {
    assert_eq!(to_wstring("abc"), vec![97u16, 98, 99, 0]);
    assert_eq!(to_wstring(""), vec![0u16]);
}

#[test]
fn wide_string_of_bmp_and_astral_characters() {
    assert_eq!(to_wstring("é€"), vec![0x00E9u16, 0x20AC, 0]);
    assert_eq!(to_wstring("\u{1F600}"), vec![0xD83Du16, 0xDE00, 0]);
    assert_eq!(to_wstring("a\u{10FFFF}"), vec![0x61u16, 0xDBFF, 0xDFFF, 0]);
}

#[test]
fn wide_string_matches_std_utf16() {
    let s = "tray \u{1F600} ünïcödé";
    let mut expected: Vec<u16> = s.encode_utf16().collect();
    expected.push(0);
    assert_eq!(to_wstring(s), expected);
}

#[test]
fn window_names_are_wide() {
    assert_eq!(window_class_name(), to_wstring("my_window"));
    assert_eq!(window_title(), to_wstring("rust_systray_window"));
}

#[test]
fn tooltip_buffer_holds_text_then_zeros() {
    let tip = tooltip_buffer("Hi");
    assert_eq!(tip.len(), 128);
    assert_eq!(&tip[..3], &[72u16, 105, 0]);
    assert!(tip[3..].iter().all(|u| *u == 0));
}

#[test]
fn tooltip_buffer_encodes_non_ascii_through_encoding_crate() {
    let tip = tooltip_buffer("é\u{1F600}");
    assert_eq!(&tip[..4], &[0x00E9u16, 0xD83D, 0xDE00, 0]);
}

#[test]
fn tooltip_buffer_cuts_long_text_and_keeps_nul() {
    let long: String = std::iter::repeat('x').take(200).collect();
    let tip = tooltip_buffer(&long);
    assert_eq!(tip.len(), 128);
    assert!(tip[..127].iter().all(|u| *u == 'x' as u16));
    assert_eq!(tip[127], 0);
}

#[test]
fn tooltip_of_exactly_127_units_ends_in_nul() {
    let text: String = std::iter::repeat('y').take(127).collect();
    let tip = tooltip_buffer(&text);
    assert!(tip[..127].iter().all(|u| *u == 'y' as u16));
    assert_eq!(tip[127], 0);
}

#[test]
fn tooltip_buffer_agrees_with_wide_string() {
    let text = "Battery: 80% \u{1F50B}";
    let tip = tooltip_buffer(text);
    let wide = to_wstring(text);
    assert_eq!(&tip[..wide.len()], &wide[..]);
}

#[test]
fn notify_requests() {
    let add = add_icon_request();
    assert_eq!(add.command, NIM_ADD);
    assert_eq!(add.data.id, 1);
    assert_eq!(add.data.flags, NIF_MESSAGE);
    assert_eq!(add.data.callback_message, WM_TRAY_CALLBACK);
    assert_eq!(add.data.callback_message, 0x401);
    assert_eq!(add.data.tip, vec![0u16; 128]);

    let tip = tooltip_request("ok");
    assert_eq!(tip.command, NIM_MODIFY);
    assert_eq!(tip.data.flags, NIF_TIP);
    assert_eq!(&tip.data.tip[..3], &[111u16, 107, 0]);

    let icon = icon_request();
    assert_eq!(icon.command, NIM_MODIFY);
    assert_eq!(icon.data.flags, NIF_ICON);

    let del = delete_request();
    assert_eq!(del.command, NIM_DELETE);
    assert_eq!(del.data.flags, NIF_ICON);
    assert_eq!(del.data.id, 1);
}

#[test]
fn os_error_text_names_operation_and_code() {
    assert_eq!(error_text(os_error("Error setting tooltip", 1400)), "Error setting tooltip: 1400");
    assert_eq!(error_text(os_error("Error clearing menu", 0)), "Error clearing menu: 0");
    assert_eq!(
        error_text(os_error("x", u32::MAX)),
        format!("x: {}", u32::MAX)
    );
    assert_eq!(error_text(os_error("", 7)), ": 7");
}

#[test]
fn os_error_code_reads_back() {
    for code in [0u32, 9, 10, 99, 100, 12345, 4294967295] {
        let text = error_text(os_error("Error", code));
        let digits = &text["Error: ".len()..];
        assert_eq!(digits.parse::<u32>().unwrap(), code);
    }
}

#[test]
fn enable_and_check_flags() {
    assert_eq!(enable_flags(MenuEnableFlag::Enabled), 0x400);
    assert_eq!(enable_flags(MenuEnableFlag::Disabled), 0x402);
    assert_eq!(enable_flags(MenuEnableFlag::Grayed), 0x401);
    assert_eq!(check_flags(true), 0x408);
    assert_eq!(check_flags(false), 0x400);
}

#[test]
fn menu_entries_get_consecutive_positions() {
    let mut menu: TrayMenu<u32> = TrayMenu::new();
    assert_eq!(menu.menu_len(), 0);
    let a = menu.add_menu_entry("Open", false);
    let sep = menu.add_menu_separator();
    let b = menu.add_menu_entry("Quit", true);
    assert_eq!((a.id, sep.id, b.id), (0, 1, 2));
    assert_eq!(menu.menu_len(), 3);

    assert_eq!(a.mask, 0x14B);
    assert_eq!(a.item_type, MFT_STRING);
    assert_eq!(a.state, 0);
    assert_eq!(b.state, MFS_CHECKED);
    assert_eq!(a.text, Some(to_wstring("Open")));
    assert_eq!(a.text_len, 8);

    assert_eq!(sep.mask, MIIM_FTYPE);
    assert_eq!(sep.item_type, MFT_SEPARATOR);
    assert_eq!(sep.text, None);
    assert_eq!(sep.text_len, 0);
}

#[test]
fn entry_text_len_counts_utf8_bytes_twice() {
    let mut menu: TrayMenu<u32> = TrayMenu::new();
    let e = menu.add_menu_entry("é", false);
    assert_eq!(e.text_len, 4);
    assert_eq!(e.text, Some(vec![0xE9u16, 0]));
}

#[test]
fn clear_deletes_from_last_to_first_and_restarts_positions() {
    let mut menu: TrayMenu<&'static str> = TrayMenu::new();
    let a = menu.add_menu_entry("a", false);
    menu.set_callback(a.id, "first");
    menu.add_menu_separator();
    menu.add_menu_entry("b", false);
    assert_eq!(menu.positions_to_clear(), vec![2, 1, 0]);
    menu.menu_cleared();
    assert_eq!(menu.menu_len(), 0);
    assert_eq!(menu.positions_to_clear(), Vec::<u32>::new());
    // Callbacks outlive the items they belonged to.
    assert!(menu.has_callback(0));
    let c = menu.add_menu_entry("c", false);
    assert_eq!(c.id, 0);
    menu.set_callback(c.id, "second");
    let step = menu.wait_step(false, Some(SystrayEvent::select_item(0)));
    match step {
        WaitAction::Handled { callback, menu_index, keep_waiting } => {
            assert_eq!(callback, Some("second"));
            assert_eq!(menu_index, 0);
            assert!(!keep_waiting);
        }
        WaitAction::Stop { .. } => panic!("expected a handled event"),
    }
}

#[test]
fn display_and_hide_events_track_the_popup() {
    let mut menu: TrayMenu<u32> = TrayMenu::new();
    assert!(!menu.menu_displayed());
    assert_eq!(menu.handle_event(SystrayEvent::display_menu()), None);
    assert!(menu.menu_displayed());
    assert_eq!(menu.handle_event(SystrayEvent::hide_menu()), None);
    assert!(!menu.menu_displayed());
}

#[test]
fn selection_hands_out_callback_until_restored() {
    let mut menu: TrayMenu<u32> = TrayMenu::new();
    let e = menu.add_menu_entry("x", false);
    menu.set_callback(e.id, 42);
    let taken = menu.handle_event(SystrayEvent::select_item(e.id));
    assert_eq!(taken, Some(42));
    assert!(!menu.has_callback(e.id));
    assert_eq!(menu.handle_event(SystrayEvent::select_item(e.id)), None);
    menu.restore_callback(e.id, 42);
    assert!(menu.has_callback(e.id));
    assert_eq!(menu.handle_event(SystrayEvent::select_item(7)), None);
    assert!(!menu.menu_displayed());
}

#[test]
fn wait_step_stops_when_nothing_arrives() {
    let mut menu: TrayMenu<u32> = TrayMenu::new();
    match menu.wait_step(true, None) {
        WaitAction::Stop { join_window_thread } => assert!(join_window_thread),
        _ => panic!("expected stop"),
    }
    match menu.wait_step(false, None) {
        WaitAction::Stop { join_window_thread } => assert!(!join_window_thread),
        _ => panic!("expected stop"),
    }
    match menu.wait_step(true, Some(SystrayEvent::display_menu())) {
        WaitAction::Handled { callback, keep_waiting, .. } => {
            assert_eq!(callback, None);
            assert!(keep_waiting);
        }
        _ => panic!("expected handled"),
    }
    assert!(menu.menu_displayed());
}

#[test]
fn message_routing() {
    assert_eq!(route_message(0x0126, 0), MessageRoute::MenuCommand);
    assert_eq!(route_message(0x0125, 0), MessageRoute::MenuClosed);
    assert_eq!(route_message(0x0401, 0x0202), MessageRoute::TrayClick);
    assert_eq!(route_message(0x0401, 0x0205), MessageRoute::TrayClick);
    assert_eq!(route_message(0x0401, 0x0200), MessageRoute::Default);
    assert_eq!(route_message(0x0401, 0x1_0000_0202), MessageRoute::TrayClick);
    assert_eq!(route_message(0x0002, 0), MessageRoute::Destroy);
    assert_eq!(route_message(0x000F, 0), MessageRoute::Default);
}

#[test]
fn menu_commands_become_selections() {
    assert_eq!(menu_command_event(u32::MAX), None);
    assert_eq!(
        menu_command_event(3),
        Some(SystrayEvent { action: SystrayAction::SelectItem, menu_index: 3 })
    );
    assert_eq!(menu_command_event(0x8000_0000).map(|e| e.menu_index), Some(0x8000_0000));
}

#[test]
fn quit_and_menu_info() {
    assert!(is_quit(0x0012));
    assert!(!is_quit(0x0002));
    let info = popup_menu_info();
    assert_eq!(info.mask, 0x8000_0010);
    assert_eq!(info.style, 0x0800_0000);
}

#[test]
fn icon_offsets() {
    assert_eq!(icon_data_start(100, 0), None);
    assert_eq!(icon_data_start(100, 22), Some(22));
    assert_eq!(icon_data_start(100, 100), Some(100));
}

#[test]
fn wide_string_decodes_back() {
    for text in ["", "plain", "é€\u{1F600}\u{10000}\u{FFFF}\u{E000}\u{D7FF}"] {
        let wide = to_wstring(text);
        assert_eq!(wide.last(), Some(&0u16));
        let decoded = String::from_utf16(&wide[..wide.len() - 1]).unwrap();
        assert_eq!(decoded, text);
    }
}
