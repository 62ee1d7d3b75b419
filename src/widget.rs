use vstd::prelude::*;
use crate::command::{Handler, HandlerString, HandlerU32};
use crate::expr::{AsString, AsU32};

verus! {

/// Static text.
#[derive(Debug, Clone)]
pub struct Label {
    pub text: AsString,
    pub id: Option<String>,
}

/// Child widgets laid out side by side, in their order.
#[derive(Debug)]
pub struct HorizontalLayout {
    pub widgets: Vec<Widget>,
}

/// A numeric control over the inclusive range `start..=end`. A value outside
/// the range, whether read from the state or reported by the surface, is
/// brought into it: below `start` it becomes `start`, above `end` it becomes
/// `end`.
#[derive(Debug, Clone)]
pub struct Slider {
    pub start: u32,
    pub end: u32,
    pub text: AsString,
    pub value: AsU32,
    pub on_change: HandlerU32,
}

/// A control that can be activated.
#[derive(Debug, Clone)]
pub struct Button {
    pub text: AsString,
    pub on_click: Handler,
}

/// A picture loaded from a file path.
#[derive(Debug, Clone)]
pub struct Image {
    pub src: AsString,
}

/// A single-line editable text.
#[derive(Debug, Clone)]
pub struct TextEdit {
    pub value: AsString,
    pub on_change: HandlerString,
    pub label_id: Option<String>,
}

/// One node of the interface description.
#[derive(Debug)]
pub enum Widget {
    Label(Label),
    HorizontalLayout(HorizontalLayout),
    TextEdit(TextEdit),
    Slider(Slider),
    Button(Button),
    Image(Image),
}

/// The main panel and the top-level widgets in it.
#[derive(Debug)]
pub struct CentralPanel {
    pub widgets: Vec<Widget>,
}

/// A region of the display.
#[derive(Debug)]
pub enum Container {
    CentralPanel(CentralPanel),
}

/// A whole interface description: a display name and its containers.
#[derive(Debug)]
pub struct Config {
    pub name: String,
    pub containers: Vec<Container>,
}

impl Default for Config {
    fn default() -> (r: Config)
        ensures
            r.name@.len() == 0,
            r.containers@.len() == 0,
    {
        Config { name: String::new(), containers: Vec::new() }
    }
}

} // verus!
