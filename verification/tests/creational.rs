use design_patterns::creational::config;
use design_patterns::creational::config::ConfigStore;
use design_patterns::creational::factory_method::factory_for;
use design_patterns::creational::factory_method::Button;
use design_patterns::creational::factory_method::ButtonEvent;
use design_patterns::creational::factory_method::ButtonFactory;
use design_patterns::creational::factory_method::Platform;
use design_patterns::creational::factory_method::WebButtonFactory;
use design_patterns::creational::factory_method::WindowsButtonFactory;
use design_patterns::creational::prototype::Circle;
use design_patterns::creational::prototype::Prototype;
use design_patterns::creational::singleton2::Singleton2;
use design_patterns::singleton::Singleton;
use std::sync::Arc;

#[test]
fn each_factory_makes_buttons_of_its_platform() {
    let button = WindowsButtonFactory.create_button();
    assert_eq!(button.render(), ButtonEvent::Rendered(Platform::Windows));
    assert_eq!(button.on_click(), ButtonEvent::Clicked(Platform::Windows));
    let button = WebButtonFactory.create_button();
    assert_eq!(button.render(), ButtonEvent::Rendered(Platform::Web));
    assert_eq!(button.on_click(), ButtonEvent::Clicked(Platform::Web));
}

#[test]
fn factory_is_picked_by_name() {
    let factory = factory_for("windows").expect("windows is known");
    let button = factory.create_button();
    assert_eq!(button.render(), ButtonEvent::Rendered(Platform::Windows));
    assert_eq!(button.on_click(), ButtonEvent::Clicked(Platform::Windows));
    let factory = factory_for("web").expect("web is known");
    assert_eq!(factory.create_button().render(), ButtonEvent::Rendered(Platform::Web));
    assert!(factory_for("Windows").is_none());
    assert!(factory_for("").is_none());
    assert!(factory_for("macos").is_none());
}

#[test]
fn prototype_copies_every_field() {
    let model = Circle { x: 10, y: 20, radius: 5 };
    let copy = model.clone_box();
    assert_eq!(*copy, Circle { x: 10, y: 20, radius: 5 });
    assert_eq!(*copy, model);
}

#[test]
fn singleton_is_made_once() {
    let mut slot: Option<Singleton> = None;
    assert_eq!(Singleton::get_instance(&mut slot).do_something(), "Singleton Instance");
    assert!(slot.is_some());
    assert_eq!(Singleton::get_instance(&mut slot).do_something(), "Singleton Instance");
    assert!(slot.is_some());
}

#[test]
fn shared_singleton_is_made_once() {
    let mut slot = None;
    let first = Singleton2::get_instance(&mut slot);
    let second = Singleton2::get_instance(&mut slot);
    assert!(Arc::ptr_eq(&first, &second));
    assert_eq!(Singleton2::value_of(&first), "Singleton Instance");
    assert_eq!(Singleton2::value_of(&second), "Singleton Instance");
}

#[test]
fn settings_are_found_by_key() {
    let mut store = ConfigStore::new();
    assert_eq!(config::get(&store, "host"), None);
    config::set(&mut store, "host", "localhost");
    config::set(&mut store, "mode", "quiet");
    assert_eq!(config::get(&store, "host"), Some(String::from("localhost")));
    assert_eq!(config::get(&store, "mode"), Some(String::from("quiet")));
    assert_eq!(config::get(&store, "user"), None);
    assert_eq!(config::get(&store, "Host"), None);
}

#[test]
fn setting_a_key_again_replaces_its_value() {
    let mut store = ConfigStore::new();
    config::set(&mut store, "host", "localhost");
    config::set(&mut store, "mode", "quiet");
    config::set(&mut store, "host", "example.org");
    assert_eq!(config::get(&store, "host"), Some(String::from("example.org")));
    assert_eq!(config::get(&store, "mode"), Some(String::from("quiet")));
    config::set(&mut store, "", "empty key");
    assert_eq!(config::get(&store, ""), Some(String::from("empty key")));
}
