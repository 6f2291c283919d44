//! Factory method: the code that needs a button asks a factory for one and
//! never names the kind of button it gets.

use vstd::prelude::*;

verus! {

/// The platforms for which there are buttons.
#[derive(Clone, Copy, Debug, PartialEq, Eq, Structural)]
pub enum Platform {
    Windows,
    Web,
}

/// What happened to a button.
#[derive(Clone, Copy, Debug, PartialEq, Eq, Structural)]
pub enum ButtonEvent {
    /// A button of this platform was rendered.
    Rendered(Platform),
    /// A button of this platform was clicked.
    Clicked(Platform),
}

/// The product: a button.
pub trait Button {
    /// The platform this button belongs to.
    spec fn platform(&self) -> Platform;

    /// Renders the button.
    fn render(&self) -> (event: ButtonEvent)
        ensures
            event == ButtonEvent::Rendered(self.platform()),
    ;

    /// Reacts to a click.
    fn on_click(&self) -> (event: ButtonEvent)
        ensures
            event == ButtonEvent::Clicked(self.platform()),
    ;
}

/// A button in the style of Windows.
pub struct WindowsButton;

impl Button for WindowsButton {
    open spec fn platform(&self) -> Platform {
        Platform::Windows
    }

    fn render(&self) -> (event: ButtonEvent) {
        ButtonEvent::Rendered(Platform::Windows)
    }

    fn on_click(&self) -> (event: ButtonEvent) {
        ButtonEvent::Clicked(Platform::Windows)
    }
}

/// A button in the style of the web.
pub struct WebButton;

impl Button for WebButton {
    open spec fn platform(&self) -> Platform {
        Platform::Web
    }

    fn render(&self) -> (event: ButtonEvent) {
        ButtonEvent::Rendered(Platform::Web)
    }

    fn on_click(&self) -> (event: ButtonEvent) {
        ButtonEvent::Clicked(Platform::Web)
    }
}

/// Either button, for code that learns only while it runs which one it has.
pub enum AnyButton {
    Windows(WindowsButton),
    Web(WebButton),
}

impl Button for AnyButton {
    open spec fn platform(&self) -> Platform {
        match self {
            AnyButton::Windows(button) => button.platform(),
            AnyButton::Web(button) => button.platform(),
        }
    }

    fn render(&self) -> (event: ButtonEvent) {
        match self {
            AnyButton::Windows(button) => button.render(),
            AnyButton::Web(button) => button.render(),
        }
    }

    fn on_click(&self) -> (event: ButtonEvent) {
        match self {
            AnyButton::Windows(button) => button.on_click(),
            AnyButton::Web(button) => button.on_click(),
        }
    }
}

/// The creator: it makes buttons of one platform.
pub trait ButtonFactory {
    /// The kind of button this factory makes.
    type Product: Button;

    /// The platform this factory makes buttons for.
    spec fn platform(&self) -> Platform;

    /// The factory method: makes a button of the factory's platform.
    fn create_button(&self) -> (button: Self::Product)
        ensures
            button.platform() == self.platform(),
    ;
}

/// Makes buttons in the style of Windows.
pub struct WindowsButtonFactory;

impl ButtonFactory for WindowsButtonFactory {
    type Product = WindowsButton;

    open spec fn platform(&self) -> Platform {
        Platform::Windows
    }

    fn create_button(&self) -> (button: WindowsButton) {
        WindowsButton
    }
}

/// Makes buttons in the style of the web.
pub struct WebButtonFactory;

impl ButtonFactory for WebButtonFactory {
    type Product = WebButton;

    open spec fn platform(&self) -> Platform {
        Platform::Web
    }

    fn create_button(&self) -> (button: WebButton) {
        WebButton
    }
}

/// Either factory.
pub enum AnyFactory {
    Windows(WindowsButtonFactory),
    Web(WebButtonFactory),
}

impl ButtonFactory for AnyFactory {
    type Product = AnyButton;

    open spec fn platform(&self) -> Platform {
        match self {
            AnyFactory::Windows(factory) => factory.platform(),
            AnyFactory::Web(factory) => factory.platform(),
        }
    }

    fn create_button(&self) -> (button: AnyButton) {
        match self {
            AnyFactory::Windows(factory) => AnyButton::Windows(factory.create_button()),
            AnyFactory::Web(factory) => AnyButton::Web(factory.create_button()),
        }
    }
}

/// The platform that goes by the name `os`, if there is one: `"windows"` and
/// `"web"` are the names there are.
pub open spec fn platform_named(os: Seq<char>) -> Option<Platform> {
    if os == "windows"@ {
        Some(Platform::Windows)
    } else if os == "web"@ {
        Some(Platform::Web)
    } else {
        None
    }
}

/// Picks the factory for the platform that goes by the name `os`.
pub fn factory_for(os: &str) -> (factory: Option<AnyFactory>)
    ensures
        match factory {
            Some(factory) => platform_named(os@) == Some(factory.platform()),
            None => platform_named(os@) is None,
        },
{
    let name = os.to_owned();
    if name == "windows".to_owned() {
        Some(AnyFactory::Windows(WindowsButtonFactory))
    } else if name == "web".to_owned() {
        Some(AnyFactory::Web(WebButtonFactory))
    } else {
        None
    }
}

} // verus!
