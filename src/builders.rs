use vstd::prelude::*;

use crate::ui::{
    is_default_state, BoolButton, BoolButtonState, Button, ButtonState, ButtonStyle, DashboarTx,
    Disabled, Div, Form, Grid, Heading, HeadingFormat, Image, InlineStyle, InputField, Link,
    LinkStyle, NumberFormat, NumberNode, SelectOption, Table, TableFromData, Td, Text, Ui,
};
use crate::value::Value;

verus! {

impl ButtonState {
    /// A state to fill in: an empty label in the secondary color.
    pub fn builder() -> (r: ButtonState)
        ensures
            is_default_state(r),
    {
        ButtonState::default()
    }

    pub fn value(self, value: Value<String>) -> (r: ButtonState)
        ensures
            r.value == value,
            r.color == self.color,
    {
        ButtonState { value, ..self }
    }

    pub fn color(self, color: String) -> (r: ButtonState)
        ensures
            r.value == self.value,
            r.color == color,
    {
        ButtonState { color, ..self }
    }

    pub fn build(self) -> (r: ButtonState)
        ensures
            r == self,
    {
        self
    }
}

impl Default for BoolButtonState {
    fn default() -> (r: BoolButtonState)
        ensures
            is_default_state(r.on),
            is_default_state(r.off),
    {
        BoolButtonState { on: ButtonState::default(), off: ButtonState::default() }
    }
}

impl BoolButtonState {
    /// A pair of states to fill in, both the default state.
    pub fn builder() -> (r: BoolButtonState)
        ensures
            is_default_state(r.on),
            is_default_state(r.off),
    {
        BoolButtonState::default()
    }

    pub fn on(self, on: ButtonState) -> (r: BoolButtonState)
        ensures
            r.on == on,
            r.off == self.off,
    {
        BoolButtonState { on, ..self }
    }

    pub fn off(self, off: ButtonState) -> (r: BoolButtonState)
        ensures
            r.on == self.on,
            r.off == off,
    {
        BoolButtonState { off, ..self }
    }

    pub fn build(self) -> (r: BoolButtonState)
        ensures
            r == self,
    {
        self
    }
}

impl SelectOption {
    /// An option to fill in, with empty text and value.
    pub fn builder() -> (r: SelectOption)
        ensures
            r.text@.len() == 0,
            r.value@.len() == 0,
    {
        SelectOption { text: String::new(), value: String::new() }
    }

    pub fn text(self, text: String) -> (r: SelectOption)
        ensures
            r.text == text,
            r.value == self.value,
    {
        SelectOption { text, ..self }
    }

    pub fn value(self, value: String) -> (r: SelectOption)
        ensures
            r.text == self.text,
            r.value == value,
    {
        SelectOption { value, ..self }
    }

    pub fn build(self) -> (r: SelectOption)
        ensures
            r == self,
    {
        self
    }
}

impl Heading {
    /// A node with no field set.
    pub fn builder() -> (r: Heading)
        ensures
            r.value is None,
            r.format is None,
    {
        Heading { value: None, format: None }
    }

    pub fn value(self, value: Value<String>) -> (r: Heading)
        ensures
            r.value == Some(value),
            r.format == self.format,
    {
        Heading { value: Some(value), ..self }
    }

    pub fn format(self, format: HeadingFormat) -> (r: Heading)
        ensures
            r.value == self.value,
            r.format == Some(format),
    {
        Heading { format: Some(format), ..self }
    }

    pub fn build_ui(self) -> (r: Ui)
        ensures
            r == Ui::Heading(self),
    {
        Ui::Heading(self)
    }

    pub fn build_td(self) -> (r: Td)
        ensures
            r == Td::Heading(self),
    {
        Td::Heading(self)
    }
}

impl Text {
    /// A node with no field set.
    pub fn builder() -> (r: Text)
        ensures
            r.value is None,
            r.style is None,
    {
        Text { value: None, style: None }
    }

    pub fn value(self, value: Value<String>) -> (r: Text)
        ensures
            r.value == Some(value),
            r.style == self.style,
    {
        Text { value: Some(value), ..self }
    }

    pub fn style(self, style: InlineStyle) -> (r: Text)
        ensures
            r.value == self.value,
            r.style == Some(style),
    {
        Text { style: Some(style), ..self }
    }

    pub fn build_ui(self) -> (r: Ui)
        ensures
            r == Ui::Text(self),
    {
        Ui::Text(self)
    }

    pub fn build_td(self) -> (r: Td)
        ensures
            r == Td::Text(self),
    {
        Td::Text(self)
    }
}

impl Link {
    /// A node with no field set.
    pub fn builder() -> (r: Link)
        ensures
            r.value is None,
            r.href is None,
            r.style is None,
    {
        Link { value: None, href: None, style: None }
    }

    pub fn value(self, value: Value<String>) -> (r: Link)
        ensures
            r.value == Some(value),
            r.href == self.href,
            r.style == self.style,
    {
        Link { value: Some(value), ..self }
    }

    pub fn href(self, href: Value<String>) -> (r: Link)
        ensures
            r.value == self.value,
            r.href == Some(href),
            r.style == self.style,
    {
        Link { href: Some(href), ..self }
    }

    pub fn style(self, style: LinkStyle) -> (r: Link)
        ensures
            r.value == self.value,
            r.href == self.href,
            r.style == Some(style),
    {
        Link { style: Some(style), ..self }
    }

    pub fn build_ui(self) -> (r: Ui)
        ensures
            r == Ui::Link(self),
    {
        Ui::Link(self)
    }

    pub fn build_td(self) -> (r: Td)
        ensures
            r == Td::Link(self),
    {
        Td::Link(self)
    }
}

impl Image {
    /// A node with no field set.
    pub fn builder() -> (r: Image)
        ensures
            r.src is None,
    {
        Image { src: None }
    }

    pub fn src(self, src: Value<String>) -> (r: Image)
        ensures
            r.src == Some(src),
    {
        Image { src: Some(src), ..self }
    }

    pub fn build_ui(self) -> (r: Ui)
        ensures
            r == Ui::Image(self),
    {
        Ui::Image(self)
    }

    pub fn build_td(self) -> (r: Td)
        ensures
            r == Td::Image(self),
    {
        Td::Image(self)
    }
}

impl NumberNode {
    /// A node with no field set.
    pub fn builder() -> (r: NumberNode)
        ensures
            r.value is None,
            r.style is None,
            r.format is None,
    {
        NumberNode { value: None, style: None, format: None }
    }

    pub fn value(self, value: Value<serde_json::Number>) -> (r: NumberNode)
        ensures
            r.value == Some(value),
            r.style == self.style,
            r.format == self.format,
    {
        NumberNode { value: Some(value), ..self }
    }

    pub fn style(self, style: InlineStyle) -> (r: NumberNode)
        ensures
            r.value == self.value,
            r.style == Some(style),
            r.format == self.format,
    {
        NumberNode { style: Some(style), ..self }
    }

    pub fn format(self, format: NumberFormat) -> (r: NumberNode)
        ensures
            r.value == self.value,
            r.style == self.style,
            r.format == Some(format),
    {
        NumberNode { format: Some(format), ..self }
    }

    pub fn build_ui(self) -> (r: Ui)
        ensures
            r == Ui::Number(self),
    {
        Ui::Number(self)
    }

    pub fn build_td(self) -> (r: Td)
        ensures
            r == Td::Number(self),
    {
        Td::Number(self)
    }
}

impl Button {
    /// A node with no field set.
    pub fn builder() -> (r: Button)
        ensures
            r.value is None,
            r.on_click is None,
            r.style is None,
            r.disabled is None,
    {
        Button { value: None, on_click: None, style: None, disabled: None }
    }

    pub fn value(self, value: Value<String>) -> (r: Button)
        ensures
            r.value == Some(value),
            r.on_click == self.on_click,
            r.style == self.style,
            r.disabled == self.disabled,
    {
        Button { value: Some(value), ..self }
    }

    pub fn on_click(self, on_click: DashboarTx) -> (r: Button)
        ensures
            r.value == self.value,
            r.on_click == Some(on_click),
            r.style == self.style,
            r.disabled == self.disabled,
    {
        Button { on_click: Some(on_click), ..self }
    }

    pub fn style(self, style: ButtonStyle) -> (r: Button)
        ensures
            r.value == self.value,
            r.on_click == self.on_click,
            r.style == Some(style),
            r.disabled == self.disabled,
    {
        Button { style: Some(style), ..self }
    }

    pub fn disabled(self, disabled: Disabled) -> (r: Button)
        ensures
            r.value == self.value,
            r.on_click == self.on_click,
            r.style == self.style,
            r.disabled == Some(disabled),
    {
        Button { disabled: Some(disabled), ..self }
    }

    pub fn build_ui(self) -> (r: Ui)
        ensures
            r == Ui::Button(self),
    {
        Ui::Button(self)
    }

    pub fn build_td(self) -> (r: Td)
        ensures
            r == Td::Button(self),
    {
        Td::Button(self)
    }
}

impl BoolButton {
    /// A node with no field set.
    pub fn builder() -> (r: BoolButton)
        ensures
            r.pointer@.len() == 0,
            r.state is None,
            r.on_click is None,
            r.disabled is None,
    {
        BoolButton { pointer: String::new(), state: None, on_click: None, disabled: None }
    }

    pub fn pointer(self, pointer: String) -> (r: BoolButton)
        ensures
            r.pointer == pointer,
            r.state == self.state,
            r.on_click == self.on_click,
            r.disabled == self.disabled,
    {
        BoolButton { pointer: pointer, ..self }
    }

    pub fn state(self, state: BoolButtonState) -> (r: BoolButton)
        ensures
            r.pointer == self.pointer,
            r.state == Some(state),
            r.on_click == self.on_click,
            r.disabled == self.disabled,
    {
        BoolButton { state: Some(state), ..self }
    }

    pub fn on_click(self, on_click: DashboarTx) -> (r: BoolButton)
        ensures
            r.pointer == self.pointer,
            r.state == self.state,
            r.on_click == Some(on_click),
            r.disabled == self.disabled,
    {
        BoolButton { on_click: Some(on_click), ..self }
    }

    pub fn disabled(self, disabled: Disabled) -> (r: BoolButton)
        ensures
            r.pointer == self.pointer,
            r.state == self.state,
            r.on_click == self.on_click,
            r.disabled == Some(disabled),
    {
        BoolButton { disabled: Some(disabled), ..self }
    }

    pub fn build_ui(self) -> (r: Ui)
        ensures
            r == Ui::BoolButton(self),
    {
        Ui::BoolButton(self)
    }

    pub fn build_td(self) -> (r: Td)
        ensures
            r == Td::BoolButton(self),
    {
        Td::BoolButton(self)
    }
}

impl Grid {
    /// A node with no field set.
    pub fn builder() -> (r: Grid)
        ensures
            r.max_height is None,
            r.min_cell_width is None,
            r.gap is None,
            r.children is None,
    {
        Grid { max_height: None, min_cell_width: None, gap: None, children: None }
    }

    pub fn max_height(self, max_height: usize) -> (r: Grid)
        ensures
            r.max_height == Some(max_height),
            r.min_cell_width == self.min_cell_width,
            r.gap == self.gap,
            r.children == self.children,
    {
        Grid { max_height: Some(max_height), ..self }
    }

    pub fn min_cell_width(self, min_cell_width: usize) -> (r: Grid)
        ensures
            r.max_height == self.max_height,
            r.min_cell_width == Some(min_cell_width),
            r.gap == self.gap,
            r.children == self.children,
    {
        Grid { min_cell_width: Some(min_cell_width), ..self }
    }

    pub fn gap(self, gap: usize) -> (r: Grid)
        ensures
            r.max_height == self.max_height,
            r.min_cell_width == self.min_cell_width,
            r.gap == Some(gap),
            r.children == self.children,
    {
        Grid { gap: Some(gap), ..self }
    }

    pub fn children(self, children: Vec<Ui>) -> (r: Grid)
        ensures
            r.max_height == self.max_height,
            r.min_cell_width == self.min_cell_width,
            r.gap == self.gap,
            r.children == Some(children),
    {
        Grid { children: Some(children), ..self }
    }

    pub fn build_ui(self) -> (r: Ui)
        ensures
            r == Ui::Grid(self),
    {
        Ui::Grid(self)
    }
}

impl Div {
    /// A node with no field set.
    pub fn builder() -> (r: Div)
        ensures
            r.children is None,
            r.max_height is None,
    {
        Div { children: None, max_height: None }
    }

    pub fn children(self, children: Vec<Ui>) -> (r: Div)
        ensures
            r.children == Some(children),
            r.max_height == self.max_height,
    {
        Div { children: Some(children), ..self }
    }

    pub fn max_height(self, max_height: usize) -> (r: Div)
        ensures
            r.children == self.children,
            r.max_height == Some(max_height),
    {
        Div { max_height: Some(max_height), ..self }
    }

    pub fn build_ui(self) -> (r: Ui)
        ensures
            r == Ui::Div(self),
    {
        Ui::Div(self)
    }
}

impl Table {
    /// A node with no field set.
    pub fn builder() -> (r: Table)
        ensures
            r.header is None,
            r.body is None,
    {
        Table { header: None, body: None }
    }

    pub fn header(self, header: Vec<String>) -> (r: Table)
        ensures
            r.header == Some(header),
            r.body == self.body,
    {
        Table { header: Some(header), ..self }
    }

    pub fn body(self, body: Vec<Vec<Ui>>) -> (r: Table)
        ensures
            r.header == self.header,
            r.body == Some(body),
    {
        Table { body: Some(body), ..self }
    }

    pub fn build_ui(self) -> (r: Ui)
        ensures
            r == Ui::Table(self),
    {
        Ui::Table(self)
    }
}

impl TableFromData {
    /// A node with no field set.
    pub fn builder() -> (r: TableFromData)
        ensures
            r.pointer@.len() == 0,
            r.header is None,
            r.row_template is None,
    {
        TableFromData { pointer: String::new(), header: None, row_template: None }
    }

    pub fn pointer(self, pointer: String) -> (r: TableFromData)
        ensures
            r.pointer == pointer,
            r.header == self.header,
            r.row_template == self.row_template,
    {
        TableFromData { pointer: pointer, ..self }
    }

    pub fn header(self, header: Vec<String>) -> (r: TableFromData)
        ensures
            r.pointer == self.pointer,
            r.header == Some(header),
            r.row_template == self.row_template,
    {
        TableFromData { header: Some(header), ..self }
    }

    pub fn row_template(self, row_template: Vec<Td>) -> (r: TableFromData)
        ensures
            r.pointer == self.pointer,
            r.header == self.header,
            r.row_template == Some(row_template),
    {
        TableFromData { row_template: Some(row_template), ..self }
    }

    pub fn build_ui(self) -> (r: Ui)
        ensures
            r == Ui::TableFromData(self),
    {
        Ui::TableFromData(self)
    }
}

impl Form {
    /// A node with no field set.
    pub fn builder() -> (r: Form)
        ensures
            r.fields is None,
            r.on_submit is None,
    {
        Form { fields: None, on_submit: None }
    }

    pub fn fields(self, fields: Vec<InputField>) -> (r: Form)
        ensures
            r.fields == Some(fields),
            r.on_submit == self.on_submit,
    {
        Form { fields: Some(fields), ..self }
    }

    pub fn on_submit(self, on_submit: DashboarTx) -> (r: Form)
        ensures
            r.fields == self.fields,
            r.on_submit == Some(on_submit),
    {
        Form { on_submit: Some(on_submit), ..self }
    }

    pub fn build_ui(self) -> (r: Ui)
        ensures
            r == Ui::Form(self),
    {
        Ui::Form(self)
    }
}

} // verus!
