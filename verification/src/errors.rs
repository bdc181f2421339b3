//! Error values raised while initializing the library or creating controls,
//! menus and resources.

use vstd::prelude::*;

verus! {

/// Errors raised by the GUI binding layer.
#[derive(Debug, Clone)]
pub enum NwgError {
    Unknown,
    /// Fatal error that may happen when calling low level native functionalities
    InitializationError(String),
    /// Error that may happen when creating a control.
    ControlCreationError(String),
    /// Error that may happen when creating a menu.
    MenuCreationError(String),
    /// Error that may happen when creating a resource.
    ResourceCreationError(String),
    /// Error raised by the file dialog object
    FileDialogError(String),
    /// Error raised by the image decoder, with the native error code
    ImageDecoderError(i32, String),
    /// Error raised by one of the locale functions
    BadLocale(String),
}

impl NwgError {
    pub fn initialization(e: String) -> (r: NwgError)
        ensures
            r == NwgError::InitializationError(e),
    {
        NwgError::InitializationError(e)
    }

    pub fn control_create(e: String) -> (r: NwgError)
        ensures
            r == NwgError::ControlCreationError(e),
    {
        NwgError::ControlCreationError(e)
    }

    pub fn menu_create(e: String) -> (r: NwgError)
        ensures
            r == NwgError::MenuCreationError(e),
    {
        NwgError::MenuCreationError(e)
    }

    pub fn resource_create(e: String) -> (r: NwgError)
        ensures
            r == NwgError::ResourceCreationError(e),
    {
        NwgError::ResourceCreationError(e)
    }

    pub fn file_dialog(e: String) -> (r: NwgError)
        ensures
            r == NwgError::FileDialogError(e),
    {
        NwgError::FileDialogError(e)
    }

    pub fn bad_locale(e: String) -> (r: NwgError)
        ensures
            r == NwgError::BadLocale(e),
    {
        NwgError::BadLocale(e)
    }

    pub fn image_decoder(code: i32, e: String) -> (r: NwgError)
        ensures
            r == NwgError::ImageDecoderError(code, e),
    {
        NwgError::ImageDecoderError(code, e)
    }

    /// The error reported when a control template names no usable parent.
    pub fn no_parent(name: &str) -> (r: NwgError)
        ensures
            r matches NwgError::ControlCreationError(m)
                && m@ == "No parent defined for \""@ + name@ + "\" control"@,
    {
        let mut m: String = "No parent defined for \"".to_owned();
        m.append(name);
        m.append("\" control");
        NwgError::ControlCreationError(m)
    }

    /// The error reported when a menu template names no usable parent.
    pub fn no_parent_menu() -> (r: NwgError)
        ensures
            r matches NwgError::MenuCreationError(m)
                && m@ == "No parent defined for menu"@,
    {
        NwgError::MenuCreationError("No parent defined for menu".to_owned())
    }
}

} // verus!
