use design_patterns::builder_default::Config;
use design_patterns::builder_default::ConfigBuilder;
use design_patterns::builder_default::Timeout;
use design_patterns::deref_coercion::say_hello;
use design_patterns::deref_coercion::MyBox;
use design_patterns::interior_mutability::next_count;
use design_patterns::interior_mutability::MyData;
use design_patterns::interior_mutability::ReadWriteData;
use design_patterns::interior_mutability::SharedCounter;
use design_patterns::new_type::UserId;
use design_patterns::observer::ConcreteObserver;
use design_patterns::observer::Observer;
use design_patterns::observer::Subject;
use design_patterns::panic_result::divide;
use design_patterns::panic_result::safe_divide;
use design_patterns::phantom_data::MyBox2;
use design_patterns::responsibility_chain::contains_char;
use design_patterns::responsibility_chain::ConcreteHandlerA;
use design_patterns::responsibility_chain::ConcreteHandlerB;
use design_patterns::responsibility_chain::EndOfChain;
use design_patterns::responsibility_chain::Handled;
use design_patterns::responsibility_chain::Handler;
use design_patterns::responsibility_chain::Request;
use design_patterns::specific::resource::MyResource;
use design_patterns::strategy::AnyStrategy;
use design_patterns::strategy::ConcreteStrategyA;
use design_patterns::strategy::ConcreteStrategyB;
use design_patterns::strategy::Context;
use design_patterns::strategy::Executed;
use design_patterns::strategy::Strategy;

#[test]
fn builder_fills_unset_fields_with_the_default_of_their_type() {
    let config = ConfigBuilder::default()
        .timeout(Timeout::from_secs(10))
        .retries(5)
        .enable_logging(false)
        .build();
    assert_eq!(config.timeout(), Timeout { secs: 10, nanos: 0 });
    assert_eq!(config.retries(), 5);
    assert!(!config.enable_logging());
    assert_eq!(config.max_connections(), 0);
}

#[test]
fn empty_builder_builds_zeroes() {
    let config = ConfigBuilder::default().build();
    assert_eq!(config.timeout(), Timeout { secs: 0, nanos: 0 });
    assert_eq!(config.retries(), 0);
    assert!(!config.enable_logging());
    assert_eq!(config.max_connections(), 0);
}

#[test]
fn later_setting_replaces_earlier() {
    let config = ConfigBuilder::default()
        .max_connections(7)
        .enable_logging(true)
        .max_connections(9)
        .build();
    assert_eq!(config.max_connections(), 9);
    assert!(config.enable_logging());
}

#[test]
fn default_config_has_the_standard_values() {
    let config = Config::default();
    assert_eq!(config.timeout(), Timeout::from_secs(5));
    assert_eq!(config.retries(), 3);
    assert!(config.enable_logging());
    assert_eq!(config.max_connections(), 100);
}

#[test]
fn my_box_dereferences_to_its_content() {
    let x = 5;
    let y = MyBox::new(x);
    assert_eq!(5, *y);
    let name = MyBox::new(String::from("Alice"));
    let as_str: &str = &name;
    assert_eq!(as_str, "Alice");
}

#[test]
fn my_data_counts_up() {
    let mut data = MyData::new(5);
    data.increment();
    assert_eq!(data.get_value(), 6);
    let mut low = MyData::new(i32::MIN);
    low.increment();
    assert_eq!(low.get_value(), i32::MIN + 1);
}

#[test]
fn next_count_wraps_at_the_top() {
    assert_eq!(next_count(0), 1);
    assert_eq!(next_count(-1), 0);
    assert_eq!(next_count(i32::MAX - 1), i32::MAX);
    assert_eq!(next_count(i32::MAX), i32::MIN);
}

#[test]
fn shared_counter_counts_through_every_handle() {
    let counter = SharedCounter::new(0);
    let other = counter.share();
    for _ in 0..5 {
        other.increment();
    }
    assert_eq!(counter.get_count(), 5);
    counter.increment();
    assert_eq!(other.get_count(), 6);
    let top = SharedCounter::new(i32::MAX);
    top.increment();
    assert_eq!(top.get_count(), i32::MIN);
}

#[test]
fn read_write_data_shows_the_last_write() {
    let data = ReadWriteData::new("hello");
    assert_eq!(data.read_data(), "hello");
    assert_eq!(data.read_data(), "hello");
    data.write_data("world");
    assert_eq!(data.read_data(), "world");
    data.write_data("");
    assert_eq!(data.read_data(), "");
}

#[test]
fn user_id_keeps_its_number() {
    let user_id = UserId::new(42);
    assert_eq!(user_id.get(), 42);
    assert_eq!(UserId::new(1).get(), 1);
    assert_eq!(UserId::new(u32::MAX).get(), u32::MAX);
}

#[test]
fn subject_tells_every_observer_in_order() {
    let mut subject = Subject::new();
    assert!(subject.notify_observers("nobody listens").is_empty());
    subject.register_observer(ConcreteObserver);
    subject.register_observer(ConcreteObserver);
    assert_eq!(
        subject.notify_observers("Hello, World!"),
        vec![String::from("Hello, World!"), String::from("Hello, World!")]
    );
    assert_eq!(ConcreteObserver.update("news"), "news");
}

#[test]
fn divide_rounds_towards_zero() {
    assert_eq!(divide(10, 2), 5);
    assert_eq!(divide(7, 2), 3);
    assert_eq!(divide(-7, 2), -3);
    assert_eq!(divide(7, -2), -3);
    assert_eq!(divide(-7, -2), 3);
    assert_eq!(divide(0, -5), 0);
    assert_eq!(divide(i32::MIN, 1), i32::MIN);
    assert_eq!(divide(i32::MAX, -1), -i32::MAX);
    assert_eq!(divide(i32::MIN, 2), -1073741824);
}

#[test]
fn safe_divide_reports_a_zero_divisor() {
    assert_eq!(safe_divide(10, 0), Err(String::from("division by zero")));
    assert_eq!(safe_divide(0, 0), Err(String::from("division by zero")));
    assert_eq!(safe_divide(10, 2), Ok(5));
    assert_eq!(safe_divide(-9, 4), Ok(-2));
    assert_eq!(safe_divide(9, -4), Ok(-2));
}

#[test]
fn my_box2_reads_what_it_points_to() {
    let val = 42;
    let boxed = MyBox2::new(&val);
    assert_eq!(*boxed.get(), 42);
    assert!(std::ptr::eq(boxed.get(), &val));
}

#[test]
fn request_goes_to_the_first_handler_that_takes_it() {
    let handler_b: ConcreteHandlerB<EndOfChain> = ConcreteHandlerB { next_handler: None };
    let mut handler_a = ConcreteHandlerA { next_handler: None };
    handler_a.set_next(handler_b);
    let request_a = Request { content: String::from("Request A") };
    assert_eq!(handler_a.handle_request(&request_a), Handled::ByHandlerA);
    let request_b = Request { content: String::from("Request B") };
    assert_eq!(handler_a.handle_request(&request_b), Handled::ByHandlerB);
    let request_c = Request { content: String::from("Request C") };
    assert_eq!(handler_a.handle_request(&request_c), Handled::ByNobody);
    let request_ab = Request { content: String::from("B before A") };
    assert_eq!(handler_a.handle_request(&request_ab), Handled::ByHandlerA);
}

#[test]
fn handler_without_successor_gives_up() {
    let alone: ConcreteHandlerA<EndOfChain> = ConcreteHandlerA { next_handler: None };
    assert_eq!(alone.handle_request(&Request { content: String::from("b") }), Handled::ByNobody);
    assert_eq!(alone.handle_request(&Request { content: String::from("") }), Handled::ByNobody);
    let marked = Request { content: String::from("xAx") };
    assert_eq!(alone.handle_request(&marked), Handled::ByHandlerA);
    let mut end = EndOfChain { next_handler: None };
    end.set_next(EndOfChain { next_handler: None });
    assert!(end.next_handler.is_some());
    assert_eq!(end.handle_request(&Request { content: String::from("A") }), Handled::ByNobody);
}

#[test]
fn contains_char_finds_a_character_anywhere() {
    assert!(contains_char("Request A", 'A'));
    assert!(contains_char("A", 'A'));
    assert!(!contains_char("a", 'A'));
    assert!(!contains_char("", 'A'));
    assert!(contains_char("caf\u{e9} \u{4e2d}\u{6587}", '\u{6587}'));
}

#[test]
fn resource_reports_its_name_when_released() {
    let resource = MyResource::new("Resource 1");
    assert_eq!(resource.name, "Resource 1");
    assert_eq!(resource.release(), "Resource 1");
}

#[test]
fn context_runs_the_strategy_it_holds() {
    let mut context = Context::new(AnyStrategy::A(ConcreteStrategyA));
    assert_eq!(context.execute_strategy(), Executed::StrategyA);
    context.set_strategy(AnyStrategy::B(ConcreteStrategyB));
    assert_eq!(context.execute_strategy(), Executed::StrategyB);
    assert_eq!(Context::new(ConcreteStrategyB).execute_strategy(), Executed::StrategyB);
    assert_eq!(ConcreteStrategyA.execute(), Executed::StrategyA);
}

#[test]
fn say_hello_greets_by_name() {
    assert_eq!(say_hello("Alice"), "Hello, Alice!");
    assert_eq!(say_hello(""), "Hello, !");
    let name = MyBox::new(String::from("Bob"));
    assert_eq!(say_hello(&name), "Hello, Bob!");
}
