use native_windows_gui::errors::NwgError;

#[test]
fn initialization_keeps_message() {
    match NwgError::initialization(String::from("boot failed")) {
        NwgError::InitializationError(m) => assert_eq!(m, "boot failed"),
        _ => panic!("wrong variant"),
    }
}

#[test]
fn control_create_keeps_message() {
    match NwgError::control_create(String::from("no class")) {
        NwgError::ControlCreationError(m) => assert_eq!(m, "no class"),
        _ => panic!("wrong variant"),
    }
}

#[test]
fn menu_create_keeps_message() {
    match NwgError::menu_create(String::from("bad menu")) {
        NwgError::MenuCreationError(m) => assert_eq!(m, "bad menu"),
        _ => panic!("wrong variant"),
    }
}

#[test]
fn resource_create_keeps_message() {
    match NwgError::resource_create(String::from("no bitmap")) {
        NwgError::ResourceCreationError(m) => assert_eq!(m, "no bitmap"),
        _ => panic!("wrong variant"),
    }
}

#[test]
fn file_dialog_keeps_message() {
    match NwgError::file_dialog(String::from("dialog dismissed")) {
        NwgError::FileDialogError(m) => assert_eq!(m, "dialog dismissed"),
        _ => panic!("wrong variant"),
    }
}

#[test]
fn bad_locale_keeps_message() {
    match NwgError::bad_locale(String::from("unknown locale")) {
        NwgError::BadLocale(m) => assert_eq!(m, "unknown locale"),
        _ => panic!("wrong variant"),
    }
}

#[test]
fn image_decoder_keeps_code_and_message() {
    match NwgError::image_decoder(-7, String::from("truncated")) {
        NwgError::ImageDecoderError(code, m) => {
            assert_eq!(code, -7);
            assert_eq!(m, "truncated");
        },
        _ => panic!("wrong variant"),
    }
}

#[test]
fn no_parent_names_the_control() {
    match NwgError::no_parent("Button") {
        NwgError::ControlCreationError(m) => {
            assert_eq!(m, "No parent defined for \"Button\" control")
        },
        _ => panic!("wrong variant"),
    }
}

#[test]
fn no_parent_menu_message() {
    match NwgError::no_parent_menu() {
        NwgError::MenuCreationError(m) => assert_eq!(m, "No parent defined for menu"),
        _ => panic!("wrong variant"),
    }
}
