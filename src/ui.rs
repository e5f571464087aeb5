use vstd::prelude::*;

use crate::json::Json;
use crate::value::Value;

verus! {

#[derive(Clone, Copy, Debug, PartialEq, Eq, Structural)]
pub enum HeadingFormat {
    H6,
    H5,
    H4,
    H3,
    H2,
    H1,
}

#[derive(Clone, Copy, Debug, PartialEq, Eq, Structural)]
pub enum LinkStyle {
    Primary,
    Secondary,
    Contrast,
}

#[derive(Clone, Copy, Debug, PartialEq, Eq, Structural)]
pub enum ButtonStyle {
    Primary,
    Secondary,
    Contrast,
    Outline,
}

#[derive(Clone, Copy, Debug, PartialEq, Eq, Structural)]
pub enum InlineStyle {
    Unstyled,
    Bold,
    Italic,
    Underline,
    Deleted,
    Inserted,
    StrikeThrough,
    Small,
    Sub,
    Sup,
    Abbr,
    Kbd,
    Highlighted,
}

#[derive(Clone, Copy, Debug, PartialEq, Eq, Structural)]
pub enum NumberFormat {
    F64,
    Percentage,
}

/// Whether an interactive node is disabled: always, or when a condition that
/// the renderer evaluates against the document holds.
#[derive(Clone, Debug, PartialEq)]
pub enum Disabled {
    Disabled,
    Condition(String),
}

impl Disabled {
    /// A condition to disable under; `None` for an empty expression, which
    /// would leave nothing to evaluate.
    pub fn condition(expr: String) -> (r: Option<Disabled>)
        ensures
            expr@.len() > 0 ==> r == Some(Disabled::Condition(expr)),
            expr@.len() == 0 ==> r is None,
    {
        if expr.as_str().unicode_len() == 0 {
            None
        } else {
            Some(Disabled::Condition(expr))
        }
    }
}

/// The message that a client sends when a user triggers a node.
#[derive(Clone, Debug, PartialEq)]
pub enum DashboarTx {
    Msg { template: Json },
}

#[derive(Clone, Debug, PartialEq)]
pub struct ButtonState {
    pub value: Value<String>,
    pub color: String,
}

#[derive(Clone, Debug, PartialEq)]
pub struct BoolButtonState {
    pub on: ButtonState,
    pub off: ButtonState,
}

#[derive(Clone, Debug, PartialEq)]
pub struct Heading {
    pub value: Option<Value<String>>,
    pub format: Option<HeadingFormat>,
}

#[derive(Clone, Debug, PartialEq)]
pub struct Text {
    pub value: Option<Value<String>>,
    pub style: Option<InlineStyle>,
}

#[derive(Clone, Debug, PartialEq)]
pub struct Link {
    pub value: Option<Value<String>>,
    pub href: Option<Value<String>>,
    pub style: Option<LinkStyle>,
}

#[derive(Clone, Debug, PartialEq)]
pub struct Image {
    pub src: Option<Value<String>>,
}

#[derive(Clone, Debug, PartialEq)]
pub struct NumberNode {
    pub value: Option<Value<serde_json::Number>>,
    pub style: Option<InlineStyle>,
    pub format: Option<NumberFormat>,
}

#[derive(Clone, Debug, PartialEq)]
pub struct Button {
    pub value: Option<Value<String>>,
    pub on_click: Option<DashboarTx>,
    pub style: Option<ButtonStyle>,
    pub disabled: Option<Disabled>,
}

#[derive(Clone, Debug, PartialEq)]
pub struct BoolButton {
    pub pointer: String,
    pub state: Option<BoolButtonState>,
    pub on_click: Option<DashboarTx>,
    pub disabled: Option<Disabled>,
}

#[derive(Debug, PartialEq)]
pub struct Tab {
    pub name: String,
    pub contents: Vec<Ui>,
}

#[derive(Debug, PartialEq)]
pub struct Tabs {
    pub tabs: Option<Vec<Tab>>,
    pub max_height: Option<usize>,
}

#[derive(Debug, PartialEq)]
pub struct Grid {
    pub max_height: Option<usize>,
    pub min_cell_width: Option<usize>,
    pub gap: Option<usize>,
    pub children: Option<Vec<Ui>>,
}

#[derive(Debug, PartialEq)]
pub struct Div {
    pub children: Option<Vec<Ui>>,
    pub max_height: Option<usize>,
}

#[derive(Debug, PartialEq)]
pub struct Table {
    pub header: Option<Vec<String>>,
    pub body: Option<Vec<Vec<Ui>>>,
}

#[derive(Clone, Debug, PartialEq)]
pub struct TableFromData {
    pub pointer: String,
    pub header: Option<Vec<String>>,
    pub row_template: Option<Vec<Td>>,
}

#[derive(Clone, Debug, PartialEq)]
pub struct Form {
    pub fields: Option<Vec<InputField>>,
    pub on_submit: Option<DashboarTx>,
}

#[derive(Clone, Debug, PartialEq)]
pub struct TextInputField {
    pub name: String,
    pub label: String,
}

#[derive(Clone, Debug, PartialEq)]
pub struct CheckBoxInputField {
    pub name: String,
    pub label: String,
}

#[derive(Clone, Debug, PartialEq)]
pub struct SelectInputField {
    pub name: String,
    pub label: String,
    pub options: Vec<SelectOption>,
}

#[derive(Clone, Debug, PartialEq)]
pub enum InputField {
    Text(TextInputField),
    CheckBox(CheckBoxInputField),
    Select(SelectInputField),
}

#[derive(Clone, Debug, PartialEq)]
pub struct SelectOption {
    pub text: String,
    pub value: String,
}

/// A node of the layout tree.
#[derive(Debug, PartialEq)]
pub enum Ui {
    Heading(Heading),
    Text(Text),
    Link(Link),
    Number(NumberNode),
    Button(Button),
    BoolButton(BoolButton),
    Tabs(Tabs),
    Grid(Grid),
    Div(Div),
    Table(Table),
    TableFromData(TableFromData),
    Form(Form),
    Image(Image),
}

/// A node that may stand in a table cell: the leaf kinds only.
#[derive(Clone, Debug, PartialEq)]
pub enum Td {
    Heading(Heading),
    Text(Text),
    Link(Link),
    Number(NumberNode),
    Button(Button),
    BoolButton(BoolButton),
    Image(Image),
}

/// A channel that the transport opens, with what it sends once connected.
#[derive(Clone, Debug, PartialEq)]
pub struct Ws {
    pub name: String,
    pub url: String,
    pub send_on_connect: Option<Json>,
}

/// The state that a toggle shows where none was given: an empty label in the
/// secondary color.
pub open spec fn is_default_state(s: ButtonState) -> bool {
    &&& s.value is Fixed
    &&& s.value->Fixed_0@ == ""@
    &&& s.color@ == "var(--secondary)"@
}

impl Default for ButtonState {
    fn default() -> (r: ButtonState)
        ensures
            is_default_state(r),
    {
        ButtonState { value: Value::Fixed("".to_owned()), color: "var(--secondary)".to_owned() }
    }
}

impl ButtonState {
    /// An independent copy of this state.
    pub fn copy(&self) -> (r: ButtonState)
        ensures
            r == *self,
    {
        let value = match &self.value {
            Value::Fixed(s) => Value::Fixed(s.clone()),
            Value::Pointer(p) => Value::Pointer(p.clone()),
        };
        ButtonState { value, color: self.color.clone() }
    }
}

impl HeadingFormat {
    /// The format's name in lower case, as the markup writes it.
    pub fn as_str(&self) -> (r: &'static str)
        ensures
            r@ == match self {
                HeadingFormat::H6 => "h6"@,
                HeadingFormat::H5 => "h5"@,
                HeadingFormat::H4 => "h4"@,
                HeadingFormat::H3 => "h3"@,
                HeadingFormat::H2 => "h2"@,
                HeadingFormat::H1 => "h1"@,
            },
    {
        match self {
            HeadingFormat::H6 => "h6",
            HeadingFormat::H5 => "h5",
            HeadingFormat::H4 => "h4",
            HeadingFormat::H3 => "h3",
            HeadingFormat::H2 => "h2",
            HeadingFormat::H1 => "h1",
        }
    }
}

impl LinkStyle {
    /// The style's name in lower case, as the markup writes it.
    pub fn as_str(&self) -> (r: &'static str)
        ensures
            r@ == match self {
                LinkStyle::Primary => "primary"@,
                LinkStyle::Secondary => "secondary"@,
                LinkStyle::Contrast => "contrast"@,
            },
    {
        match self {
            LinkStyle::Primary => "primary",
            LinkStyle::Secondary => "secondary",
            LinkStyle::Contrast => "contrast",
        }
    }
}

impl ButtonStyle {
    /// The style's name in lower case, as the markup writes it.
    pub fn as_str(&self) -> (r: &'static str)
        ensures
            r@ == match self {
                ButtonStyle::Primary => "primary"@,
                ButtonStyle::Secondary => "secondary"@,
                ButtonStyle::Contrast => "contrast"@,
                ButtonStyle::Outline => "outline"@,
            },
    {
        match self {
            ButtonStyle::Primary => "primary",
            ButtonStyle::Secondary => "secondary",
            ButtonStyle::Contrast => "contrast",
            ButtonStyle::Outline => "outline",
        }
    }
}

/// The markup element that each inline style renders as.
pub open spec fn node_of(s: InlineStyle) -> Seq<char> {
    match s {
        InlineStyle::Kbd => "kbd"@,
        InlineStyle::Sub => "sub"@,
        InlineStyle::Sup => "sup"@,
        InlineStyle::Abbr => "abbr"@,
        InlineStyle::Bold => "strong"@,
        InlineStyle::Small => "small"@,
        InlineStyle::Italic => "em"@,
        InlineStyle::Deleted => "del"@,
        InlineStyle::Inserted => "ins"@,
        InlineStyle::Unstyled => "text"@,
        InlineStyle::Underline => "u"@,
        InlineStyle::Highlighted => "mark"@,
        InlineStyle::StrikeThrough => "s"@,
    }
}

impl InlineStyle {
    /// The markup element that this style renders as.
    pub fn to_node(&self) -> (r: &'static str)
        ensures
            r@ == node_of(*self),
    {
        match self {
            Self::Kbd => "kbd",
            Self::Sub => "sub",
            Self::Sup => "sup",
            Self::Abbr => "abbr",
            Self::Bold => "strong",
            Self::Small => "small",
            Self::Italic => "em",
            Self::Deleted => "del",
            Self::Inserted => "ins",
            Self::Unstyled => "text",
            Self::Underline => "u",
            Self::Highlighted => "mark",
            Self::StrikeThrough => "s",
        }
    }
}

/// The name that a form field submits its value under.
pub open spec fn field_name(f: InputField) -> Seq<char> {
    match f {
        InputField::Text(t) => t.name@,
        InputField::CheckBox(c) => c.name@,
        InputField::Select(s) => s.name@,
    }
}

impl InputField {
    pub fn name(&self) -> (r: String)
        ensures
            r@ == field_name(*self),
    {
        match &self {
            InputField::Text(f) => f.name.clone(),
            InputField::CheckBox(f) => f.name.clone(),
            InputField::Select(f) => f.name.clone(),
        }
    }
}

} // verus!
