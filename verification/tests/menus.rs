use native_windows_gui::controls::{AnyHandle, ControlType};
use native_windows_gui::errors::NwgError;
use native_windows_gui::events::Event;
use native_windows_gui::menu::{build_menu, build_menu_item, MenuItemT, MenuT};
use native_windows_gui::system::WindowSystem;
use native_windows_gui::ui::Ui;

#[test]
fn window_gets_a_menubar_on_first_menu() {
    let mut ui = Ui::new();
    let w = ui.create_window(1).unwrap();
    assert_eq!(w, 1);

    let t = MenuT { text: String::from("File"), parent: 1 };
    let menu = t.build(&mut ui).unwrap();

    // The menu bar was created first, then the menu itself.
    assert_eq!(menu.handle, 3);
    assert_eq!(menu.parent, AnyHandle::Hwnd(1));
    assert_eq!(ui.sys.get_menu(1), Some(2));

    let bar = ui.sys.menus.get(&2).unwrap();
    assert_eq!(bar.len(), 1);
    assert_eq!(bar[0].text, "File");
    assert_eq!(bar[0].submenu, Some(3));
    assert_eq!(ui.sys.menus.get(&3).unwrap().len(), 0);
}

#[test]
fn second_menu_reuses_the_menubar() {
    let mut ui = Ui::new();
    ui.create_window(1).unwrap();
    let first = MenuT { text: String::from("File"), parent: 1 }.build(&mut ui).unwrap();
    let second = MenuT { text: String::from("Edit"), parent: 1 }.build(&mut ui).unwrap();

    assert_eq!(first.handle, 3);
    assert_eq!(second.handle, 4);
    let bar = ui.sys.menus.get(&2).unwrap();
    assert_eq!(bar.len(), 2);
    assert_eq!(bar[0].text, "File");
    assert_eq!(bar[1].text, "Edit");
    assert_eq!(bar[1].submenu, Some(4));
}

#[test]
fn menu_under_menu_becomes_popup_entry() {
    let mut ui = Ui::new();
    ui.create_window(1).unwrap();
    let file = MenuT { text: String::from("File"), parent: 1 }.build(&mut ui).unwrap();
    assert!(ui.bind_handle(2, file.handle()));

    let recent = MenuT { text: String::from("Recent"), parent: 2 }.build(&mut ui).unwrap();
    assert_eq!(recent.parent, AnyHandle::Hmenu(file.handle));

    let entries = ui.sys.menus.get(&file.handle).unwrap();
    assert_eq!(entries.len(), 1);
    assert_eq!(entries[0].text, "Recent");
    assert_eq!(entries[0].submenu, Some(recent.handle));
}

#[test]
fn menu_item_is_a_plain_entry() {
    let mut ui = Ui::new();
    ui.create_window(1).unwrap();
    let file = MenuT { text: String::from("File"), parent: 1 }.build(&mut ui).unwrap();
    assert!(ui.bind_handle(2, file.handle()));

    let item = MenuItemT { text: String::from("Quit"), parent: 2 }.build(&mut ui).unwrap();
    assert_eq!(item.parent, AnyHandle::Hmenu(file.handle));
    assert_eq!(item.handle(), AnyHandle::Hmenu(file.handle));

    let entries = ui.sys.menus.get(&file.handle).unwrap();
    assert_eq!(entries.len(), 1);
    assert_eq!(entries[0].text, "Quit");
    assert_eq!(entries[0].submenu, None);
}

#[test]
fn menu_item_under_window_goes_to_the_menubar() {
    let mut ui = Ui::new();
    ui.create_window(1).unwrap();
    let parent = build_menu_item(&mut ui, &MenuItemT { text: String::from("Help"), parent: 1 })
        .unwrap();
    assert_eq!(parent, AnyHandle::Hwnd(1));

    // The menu bar was created for the item.
    assert_eq!(ui.sys.get_menu(1), Some(2));
    let bar = ui.sys.menus.get(&2).unwrap();
    assert_eq!(bar.len(), 1);
    assert_eq!(bar[0].text, "Help");
    assert_eq!(bar[0].submenu, None);
}

#[test]
fn unknown_parent_is_refused() {
    let mut ui = Ui::new();
    match build_menu(&mut ui, &MenuT { text: String::from("File"), parent: 9 }) {
        Err(NwgError::MenuCreationError(m)) => assert_eq!(m, "No parent defined for menu"),
        _ => panic!("expected a menu creation error"),
    }
    match build_menu_item(&mut ui, &MenuItemT { text: String::from("Quit"), parent: 9 }) {
        Err(NwgError::MenuCreationError(m)) => assert_eq!(m, "No parent defined for menu"),
        _ => panic!("expected a menu creation error"),
    }
}

#[test]
fn menu_item_parent_is_refused() {
    let mut ui = Ui::new();
    ui.create_window(1).unwrap();
    let file = MenuT { text: String::from("File"), parent: 1 }.build(&mut ui).unwrap();
    assert!(ui.bind_handle(7, AnyHandle::HmenuItem(file.handle, 0)));

    match build_menu(&mut ui, &MenuT { text: String::from("Sub"), parent: 7 }) {
        Err(NwgError::MenuCreationError(m)) => {
            assert_eq!(m, "Window or menu parent required, got MenuItem")
        },
        _ => panic!("expected a menu creation error"),
    }
    match build_menu_item(&mut ui, &MenuItemT { text: String::from("Sub"), parent: 7 }) {
        Err(NwgError::MenuCreationError(m)) => {
            assert_eq!(m, "Window or menu parent required, got MenuItem")
        },
        _ => panic!("expected a menu creation error"),
    }
}

#[test]
fn freeing_a_menu_detaches_and_destroys_it() {
    let mut ui = Ui::new();
    ui.create_window(1).unwrap();
    let mut file = MenuT { text: String::from("File"), parent: 1 }.build(&mut ui).unwrap();
    build_menu_item(&mut ui, &MenuItemT { text: String::from("Help"), parent: 1 }).unwrap();

    // The menu bar holds the popup entry and the plain item.
    assert_eq!(ui.sys.menus.get(&2).unwrap().len(), 2);

    file.free(&mut ui.sys);

    assert!(!ui.sys.menus.contains_key(&file.handle));
    let bar = ui.sys.menus.get(&2).unwrap();
    assert_eq!(bar.len(), 1);
    assert_eq!(bar[0].text, "Help");
}

#[test]
fn freeing_a_menu_item_changes_nothing() {
    let mut ui = Ui::new();
    ui.create_window(1).unwrap();
    let file = MenuT { text: String::from("File"), parent: 1 }.build(&mut ui).unwrap();
    assert!(ui.bind_handle(2, file.handle()));
    let mut item = MenuItemT { text: String::from("Quit"), parent: 2 }.build(&mut ui).unwrap();

    item.free();
    assert_eq!(ui.sys.menus.get(&file.handle).unwrap().len(), 1);
}

#[test]
fn templates_report_kind_and_events() {
    let menu_t = MenuT { text: String::from("File"), parent: 1 };
    assert_eq!(menu_t.type_id(), ControlType::Menu);
    assert_eq!(menu_t.events(), vec![Event::Destroyed]);

    let item_t = MenuItemT { text: String::from("Quit"), parent: 1 };
    assert_eq!(item_t.type_id(), ControlType::MenuItem);
    assert_eq!(item_t.events(), vec![Event::Destroyed]);
}

#[test]
fn menu_handle_is_its_own() {
    let mut ui = Ui::new();
    ui.create_window(1).unwrap();
    let file = MenuT { text: String::from("File"), parent: 1 }.build(&mut ui).unwrap();
    assert_eq!(file.handle(), AnyHandle::Hmenu(file.handle));
}

#[test]
fn ui_bindings_are_first_come() {
    let mut ui = Ui::new();
    let w = ui.create_window(5).unwrap();
    assert_eq!(ui.create_window(5), None);
    assert_eq!(ui.handle_of(5), Some(AnyHandle::Hwnd(w)));
    assert_eq!(ui.handle_of(6), None);

    assert!(ui.bind_handle(6, AnyHandle::Hwnd(w)));
    assert!(!ui.bind_handle(6, AnyHandle::Hwnd(w)));
    assert_eq!(ui.handle_of(6), Some(AnyHandle::Hwnd(w)));
}

#[test]
fn window_system_hands_out_fresh_handles() {
    let mut sys = WindowSystem::new();
    let w = sys.create_window();
    let m1 = sys.create_menu();
    let m2 = sys.create_menu();
    assert_eq!((w, m1, m2), (1, 2, 3));

    assert_eq!(sys.get_menu(w), None);
    sys.set_menu(w, m1);
    assert_eq!(sys.get_menu(w), Some(m1));
    assert_eq!(sys.get_menu(99), None);

    sys.destroy_menu(m2);
    assert!(!sys.menus.contains_key(&m2));
    assert!(sys.menus.contains_key(&m1));
}
