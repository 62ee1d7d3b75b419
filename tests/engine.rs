use ui_engine::command::{Handler, HandlerString, HandlerU32};
use ui_engine::context::{push_decimal, HandlerContext};
use ui_engine::engine::Engine;
use ui_engine::expr::{AsString, AsU32};
use ui_engine::frame::{Event, Render};
use ui_engine::widget::{
    Button, CentralPanel, Config, Container, HorizontalLayout, Image, Label, Slider, TextEdit,
    Widget,
};

fn ctx(name: &str, age: u32) -> HandlerContext {
    HandlerContext::new(name.to_string(), age)
}

fn age_slider(start: u32, end: u32) -> Widget {
    Widget::Slider(Slider {
        start,
        end,
        text: AsString::Literal("age".to_string()),
        value: AsU32::GetAge,
        on_change: HandlerU32::SetAge,
    })
}

fn increment_button() -> Widget {
    Widget::Button(Button { text: AsString::Literal("Click each year".to_string()), on_click: Handler::IncrementAge })
}

fn hello_label() -> Widget {
    Widget::Label(Label { text: AsString::Hello, id: None })
}

fn name_edit() -> Widget {
    Widget::TextEdit(TextEdit { value: AsString::GetName, on_change: HandlerString::SetName, label_id: None })
}

fn one_panel(widgets: Vec<Widget>) -> Config {
    Config {
        name: "demo".to_string(),
        containers: vec![Container::CentralPanel(CentralPanel { widgets })],
    }
}

fn decimal_of(n: u32) -> String {
    let mut s = String::from("x");
    push_decimal(&mut s, n);
    s
}

#[test]
fn default_context_is_arthur_42() {
    let c = HandlerContext::default();
    assert_eq!(c.name(), "Arthur");
    assert_eq!(c.age(), 42);
}

#[test]
fn hello_expression_text() {
    let c = HandlerContext::default();
    assert_eq!(AsString::Hello.as_string(&c), "Hello 'Arthur', age 42");
}

#[test]
fn hello_expression_other_state() {
    assert_eq!(AsString::Hello.as_string(&ctx("Zoe", 0)), "Hello 'Zoe', age 0");
    assert_eq!(AsString::Hello.as_string(&ctx("", 4294967295)), "Hello '', age 4294967295");
}

#[test]
fn decimal_notation() {
    assert_eq!(decimal_of(0), "x0");
    assert_eq!(decimal_of(7), "x7");
    assert_eq!(decimal_of(10), "x10");
    assert_eq!(decimal_of(1905), "x1905");
    assert_eq!(decimal_of(u32::MAX), "x4294967295");
}

#[test]
fn numeric_expressions() {
    let c = ctx("Arthur", 42);
    assert_eq!(AsU32::GetAge.as_u32(&c), 42);
    assert_eq!(AsU32::Literal(9).as_u32(&c), 9);
}

#[test]
fn text_expressions() {
    let c = ctx("Arthur", 42);
    assert_eq!(AsString::GetName.as_string(&c), "Arthur");
    assert_eq!(AsString::Literal("abc".to_string()).as_string(&c), "abc");
}

#[test]
fn set_age_command() {
    let mut c = ctx("Arthur", 42);
    HandlerU32::SetAge.run(7, &mut c);
    assert_eq!(c.age(), 7);
    assert_eq!(c.name(), "Arthur");
}

#[test]
fn set_name_command() {
    let mut c = ctx("Arthur", 42);
    HandlerString::SetName.run("Ford".to_string(), &mut c);
    assert_eq!(c.name(), "Ford");
    assert_eq!(c.age(), 42);
}

#[test]
fn increment_age_command() {
    let mut c = ctx("Arthur", 42);
    Handler::IncrementAge.run(&mut c);
    assert_eq!(c.age(), 43);
}

#[test]
fn increment_age_stays_at_largest() {
    let mut c = ctx("Arthur", u32::MAX);
    Handler::IncrementAge.run(&mut c);
    assert_eq!(c.age(), u32::MAX);
}

#[test]
fn draw_each_kind() {
    let c = ctx("Arthur", 42);
    assert_eq!(c.draw(&hello_label()), Render::Label { text: "Hello 'Arthur', age 42".to_string() });
    assert_eq!(
        c.draw(&age_slider(0, 100)),
        Render::Slider { value: 42, start: 0, end: 100, text: "age".to_string() }
    );
    assert_eq!(c.draw(&increment_button()), Render::Button { text: "Click each year".to_string() });
    assert_eq!(c.draw(&name_edit()), Render::TextEdit { value: "Arthur".to_string() });
    let image = Widget::Image(Image { src: AsString::Literal("ferris.png".to_string()) });
    assert_eq!(c.draw(&image), Render::Image { uri: "file://ferris.png".to_string() });
    let layout = Widget::HorizontalLayout(HorizontalLayout { widgets: vec![] });
    assert_eq!(c.draw(&layout), Render::HorizontalBegin);
}

#[test]
fn slider_value_is_clamped_for_drawing() {
    let c = ctx("Arthur", 142);
    assert_eq!(c.draw(&age_slider(0, 100)), Render::Slider { value: 100, start: 0, end: 100, text: "age".to_string() });
    let c = ctx("Arthur", 3);
    assert_eq!(c.draw(&age_slider(10, 20)), Render::Slider { value: 10, start: 10, end: 20, text: "age".to_string() });
}

#[test]
fn slider_report_is_clamped_before_command() {
    let mut c = ctx("Arthur", 42);
    c.react(&age_slider(0, 100), &Event::Changed(250));
    assert_eq!(c.age(), 100);
    c.react(&age_slider(0, 100), &Event::Changed(7));
    assert_eq!(c.age(), 7);
}

#[test]
fn reports_of_another_kind_are_ignored() {
    let mut c = ctx("Arthur", 42);
    c.react(&age_slider(0, 100), &Event::Clicked);
    c.react(&increment_button(), &Event::Changed(3));
    c.react(&name_edit(), &Event::Clicked);
    c.react(&hello_label(), &Event::Clicked);
    assert_eq!(c.age(), 42);
    assert_eq!(c.name(), "Arthur");
}

#[test]
fn text_edit_sets_name() {
    let mut c = ctx("Arthur", 42);
    c.react(&name_edit(), &Event::Edited("Trillian".to_string()));
    assert_eq!(c.name(), "Trillian");
}

#[test]
fn end_to_end_slider_then_button() {
    let mut engine = Engine::new(one_panel(vec![age_slider(0, 100), increment_button()]), HandlerContext::default());
    engine.update(&vec![Event::Changed(50), Event::Idle]);
    assert_eq!(engine.context.age(), 50);
    let drawn = engine.update(&vec![Event::Idle, Event::Idle]);
    assert_eq!(drawn[1], Render::Slider { value: 50, start: 0, end: 100, text: "age".to_string() });
    assert_eq!(engine.context.age(), 50);
    engine.update(&vec![Event::Idle, Event::Clicked]);
    assert_eq!(engine.context.age(), 51);
}

#[test]
fn quiet_frames_are_identical() {
    let widgets = vec![
        hello_label(),
        Widget::HorizontalLayout(HorizontalLayout { widgets: vec![age_slider(0, 100), increment_button()] }),
        name_edit(),
    ];
    let mut engine = Engine::new(one_panel(widgets), HandlerContext::default());
    let first = engine.update(&vec![Event::Idle; 4]);
    let second = engine.update(&vec![]);
    assert_eq!(first, second);
    assert_eq!(engine.context.age(), 42);
    assert_eq!(engine.context.name(), "Arthur");
}

#[test]
fn widget_drawn_before_its_command_and_next_sees_it() {
    let mut engine = Engine::new(one_panel(vec![age_slider(0, 100), hello_label()]), HandlerContext::default());
    let drawn = engine.update(&vec![Event::Changed(50), Event::Idle]);
    assert_eq!(
        drawn,
        vec![
            Render::PanelBegin,
            Render::Slider { value: 42, start: 0, end: 100, text: "age".to_string() },
            Render::Label { text: "Hello 'Arthur', age 50".to_string() },
            Render::PanelEnd,
        ]
    );
}

#[test]
fn one_report_per_widget() {
    let mut engine = Engine::new(one_panel(vec![increment_button(), increment_button()]), HandlerContext::default());
    engine.update(&vec![Event::Clicked]);
    assert_eq!(engine.context.age(), 43);
    engine.update(&vec![Event::Clicked, Event::Clicked]);
    assert_eq!(engine.context.age(), 45);
}

#[test]
fn layout_draws_children_in_order() {
    let layout = Widget::HorizontalLayout(HorizontalLayout {
        widgets: vec![
            Widget::Label(Label { text: AsString::Literal("a".to_string()), id: Some("first".to_string()) }),
            Widget::HorizontalLayout(HorizontalLayout { widgets: vec![increment_button()] }),
            Widget::Label(Label { text: AsString::GetName, id: None }),
        ],
    });
    let mut c = ctx("Arthur", 1);
    let mut drawn = Vec::new();
    let next = c.update_widget(&layout, &vec![Event::Idle, Event::Clicked, Event::Idle], 0, &mut drawn);
    assert_eq!(next, 3);
    assert_eq!(c.age(), 2);
    assert_eq!(
        drawn,
        vec![
            Render::HorizontalBegin,
            Render::Label { text: "a".to_string() },
            Render::HorizontalBegin,
            Render::Button { text: "Click each year".to_string() },
            Render::HorizontalEnd,
            Render::Label { text: "Arthur".to_string() },
            Render::HorizontalEnd,
        ]
    );
}

#[test]
fn containers_walk_in_order() {
    let config = Config {
        name: "two".to_string(),
        containers: vec![
            Container::CentralPanel(CentralPanel { widgets: vec![name_edit()] }),
            Container::CentralPanel(CentralPanel { widgets: vec![Widget::Label(Label { text: AsString::GetName, id: None })] }),
        ],
    };
    let mut engine = Engine::new(config, HandlerContext::default());
    let drawn = engine.update(&vec![Event::Edited("Ford".to_string())]);
    assert_eq!(
        drawn,
        vec![
            Render::PanelBegin,
            Render::TextEdit { value: "Arthur".to_string() },
            Render::PanelEnd,
            Render::PanelBegin,
            Render::Label { text: "Ford".to_string() },
            Render::PanelEnd,
        ]
    );
}

#[test]
fn empty_config_draws_nothing() {
    let mut engine = Engine::new(Config::default(), HandlerContext::default());
    assert!(engine.update(&vec![Event::Clicked]).is_empty());
    assert_eq!(engine.context.age(), 42);
}
