use design_patterns::adapter::Extent;
use design_patterns::adapter::LegacyRectangle;
use design_patterns::adapter::RectangleAdapter;
use design_patterns::adapter::Shape;
use design_patterns::structural::bridge::Api;
use design_patterns::structural::bridge::Circle;
use design_patterns::structural::bridge::DirectXRenderer;
use design_patterns::structural::bridge::OpenGLRenderer;
use design_patterns::structural::bridge::Rendered;
use design_patterns::structural::bridge::Renderer;
use design_patterns::structural::decorator::Action;
use design_patterns::structural::decorator::Component;
use design_patterns::structural::decorator::ConcreteComponent;
use design_patterns::structural::decorator::ConcreteDecoratorA;
use design_patterns::structural::flyweight::Flyweight;
use design_patterns::structural::flyweight::FlyweightFactory;
use design_patterns::structural::proxy::Proxy;
use design_patterns::structural::proxy::RealSubject;
use design_patterns::structural::proxy::Stage;
use design_patterns::structural::proxy::Subject;

#[test]
fn adapter_draws_from_corner_to_corner() {
    let legacy_rect = LegacyRectangle { x: 10, y: 20, width: 100, height: 50 };
    let adapter = RectangleAdapter { legacy_rect };
    assert_eq!(adapter.draw(), Extent { from_x: 10, from_y: 20, to_x: 110, to_y: 70 });
    assert_eq!(
        adapter.legacy_rect.draw_old(),
        Extent { from_x: 10, from_y: 20, to_x: 110, to_y: 70 }
    );
}

#[test]
fn adapter_does_not_overflow_at_the_edges() {
    let legacy_rect =
        LegacyRectangle { x: i32::MAX, y: i32::MIN, width: i32::MAX, height: i32::MIN };
    let adapter = RectangleAdapter { legacy_rect };
    assert_eq!(
        adapter.draw(),
        Extent {
            from_x: 2147483647,
            from_y: -2147483648,
            to_x: 4294967294,
            to_y: -4294967296,
        }
    );
}

#[test]
fn decorator_adds_its_behaviour_after_the_component() {
    assert_eq!(ConcreteComponent.operation(), vec![Action::ConcreteOperation]);
    let decorated = ConcreteDecoratorA::new(ConcreteComponent);
    assert_eq!(decorated.added_behavior(), Action::AddedBehaviorA);
    assert_eq!(decorated.operation(), vec![Action::ConcreteOperation, Action::AddedBehaviorA]);
    let twice = ConcreteDecoratorA::new(decorated);
    assert_eq!(
        twice.operation(),
        vec![Action::ConcreteOperation, Action::AddedBehaviorA, Action::AddedBehaviorA]
    );
}

#[test]
fn proxy_wraps_the_real_request() {
    assert_eq!(RealSubject.request(), vec![Stage::Handling]);
    let proxy = Proxy { real_subject: RealSubject };
    assert_eq!(proxy.pre_request(), Stage::Preparing);
    assert_eq!(proxy.post_request(), Stage::PostProcessing);
    assert_eq!(proxy.request(), vec![Stage::Preparing, Stage::Handling, Stage::PostProcessing]);
}

#[test]
fn factory_keeps_one_flyweight_per_state() {
    let mut factory = FlyweightFactory::new();
    assert!(factory.handle("state1").is_none());
    assert_eq!(factory.flyweights.len(), 1);
    let again = factory.handle("state1").expect("kept since the first call");
    let op = again.operation("outside");
    assert_eq!(op.intrinsic_state, "state1");
    assert_eq!(op.extrinsic_state, "outside");
    assert_eq!(factory.flyweights.len(), 1);
    assert!(factory.handle("state3").is_none());
    assert_eq!(factory.flyweights.len(), 2);
    assert_eq!(factory.position("state1"), Some(0));
    assert_eq!(factory.position("state3"), Some(1));
    assert_eq!(factory.position("state2"), None);
}

#[test]
fn flyweight_is_found_by_its_state() {
    let mut factory = FlyweightFactory::new();
    assert!(factory.get_flyweight("a").is_none());
    factory.push_flyweight(String::from("a"));
    factory.push_flyweight(String::from("b"));
    factory.push_flyweight(String::from("a"));
    assert_eq!(factory.flyweights.len(), 3);
    let found = factory.get_flyweight("a").expect("pushed before");
    assert!(std::ptr::eq(found, &factory.flyweights[0]));
    let found = factory.get_flyweight("b").expect("pushed before");
    assert!(std::ptr::eq(found, &factory.flyweights[1]));
    assert_eq!(found.operation("x").intrinsic_state, "b");
    assert!(factory.get_flyweight("c").is_none());
    assert!(factory.get_flyweight("").is_none());
}

#[test]
fn circle_hands_its_radius_to_its_renderer() {
    let circle1 = Circle::new(OpenGLRenderer, 5.0_f64);
    let circle2 = Circle::new(DirectXRenderer, 10.0_f64);
    assert_eq!(circle1.draw(), Rendered { api: Api::OpenGL, radius: 5.0 });
    assert_eq!(circle2.draw(), Rendered { api: Api::DirectX, radius: 10.0 });
    assert_eq!(DirectXRenderer.render_circle(3_u8), Rendered { api: Api::DirectX, radius: 3 });
}
