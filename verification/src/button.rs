//! A button: a label in a border that resolves to an action when clicked.

use vstd::prelude::*;

use crate::actions::InterfaceAction;
use crate::colors::{selected, white, Rgb};
use crate::frame::Widget;
use crate::geometry::Rect;
use crate::render_context::RenderContext;
use crate::widget_id::WidgetId;

verus! {

/// How a piece of text is drawn.
#[derive(Copy, Clone, Debug, PartialEq, Eq, Structural)]
pub struct TextStyle {
    /// The colour of the text.
    pub fg: Rgb,
    /// The colour behind the text, where it is not the terminal's own.
    pub bg: Option<Rgb>,
    pub underlined: bool,
}

/// A piece of text with the style it is drawn in.
#[derive(Debug)]
pub struct Span {
    pub content: String,
    pub style: TextStyle,
}

/// The style of a button's label: white, underlined while the button is
/// pressed, on the selection colour while the pointer is on the button.
pub open spec fn label_style(hovered: bool, pressed: bool) -> TextStyle {
    TextStyle {
        fg: Rgb { r: 0xDE, g: 0xEE, b: 0xD6 },
        bg: if hovered {
            Some(Rgb { r: 0x4E, g: 0x4A, b: 0x4F })
        } else {
            None
        },
        underlined: pressed,
    }
}

/// The lines of `text`: the pieces between its line feeds. A text without
/// line feed is one line, the empty text is one empty line, and a text that
/// ends in a line feed ends in an empty line.
pub open spec fn spec_split_lines(text: Seq<char>) -> Seq<Seq<char>>
    decreases text.len(),
{
    if text.len() == 0 {
        seq![Seq::empty()]
    } else {
        let before = spec_split_lines(text.drop_last());
        if text.last() == '\n' {
            before.push(Seq::empty())
        } else {
            before.drop_last().push(before.last().push(text.last()))
        }
    }
}

/// The text whose lines are `lines`: the lines with a line feed between
/// each two.
pub open spec fn join_lines(lines: Seq<Seq<char>>) -> Seq<char>
    decreases lines.len(),
{
    if lines.len() == 0 {
        Seq::empty()
    } else if lines.len() == 1 {
        lines[0]
    } else {
        join_lines(lines.drop_last()) + seq!['\n'] + lines.last()
    }
}

/// Splitting loses nothing and leaves no line feed behind: a text has at
/// least one line, none of its lines holds a line feed, and the lines joined
/// by line feeds are the text.
pub proof fn lemma_split_lines(text: Seq<char>)
    ensures
        spec_split_lines(text).len() >= 1,
        join_lines(spec_split_lines(text)) == text,
        forall|i: int, j: int|
            0 <= i < spec_split_lines(text).len() && 0 <= j < spec_split_lines(text)[i].len()
                ==> spec_split_lines(text)[i][j] != '\n',
    decreases text.len(),
{
    if text.len() > 0 {
        let init = text.drop_last();
        let before = spec_split_lines(init);
        let lines = spec_split_lines(text);
        lemma_split_lines(init);
        if text.last() == '\n' {
            assert(lines.drop_last() =~= before);
        } else if before.len() > 1 {
            assert(lines.drop_last() =~= before.drop_last());
            assert(join_lines(lines) =~= join_lines(before).push(text.last()));
        }
    }
}

/// The lines of `text`: the pieces between its line feeds.
pub fn split_lines(text: &str) -> (lines: Vec<String>)
    ensures
        lines@.len() == spec_split_lines(text@).len(),
        forall|i: int| 0 <= i < lines@.len() ==> (#[trigger] lines@[i])@ == spec_split_lines(text@)[i],
{
    let length = text.unicode_len();
    let mut lines: Vec<String> = Vec::new();
    let mut start: usize = 0;
    let mut i: usize = 0;
    while i < length
        invariant
            length == text@.len(),
            start <= i <= length,
            spec_split_lines(text@.take(i as int)).len() == lines@.len() + 1,
            spec_split_lines(text@.take(i as int)).last() == text@.subrange(start as int, i as int),
            forall|k: int|
                0 <= k < lines@.len() ==> (#[trigger] lines@[k])@ == spec_split_lines(
                    text@.take(i as int),
                )[k],
        decreases length - i,
    {
        assert(text@.take(i + 1).drop_last() =~= text@.take(i as int));
        if text.get_char(i) == '\n' {
            lines.push(text.substring_char(start, i).to_owned());
            start = i + 1;
        }
        i = i + 1;
    }
    assert(text@.take(length as int) =~= text@);
    lines.push(text.substring_char(start, length).to_owned());
    lines
}

/// The label `text` as it is drawn on a button in the given state.
pub fn text_style(text: &str, hovered: bool, pressed: bool) -> (span: Span)
    ensures
        span.content@ == text@,
        span.style == label_style(hovered, pressed),
{
    let bg = if hovered {
        Some(selected())
    } else {
        None
    };
    Span { content: text.to_owned(), style: TextStyle { fg: white(), bg, underlined: pressed } }
}

/// What a [`Button`] holds, as a mathematical value.
pub struct ButtonView {
    pub label: Seq<char>,
    pub action: InterfaceAction,
    pub id: WidgetId,
}

/// A button with a label of one or more lines.
pub struct Button {
    label: String,
    action: InterfaceAction,
    id: WidgetId,
}

impl View for Button {
    type V = ButtonView;

    closed spec fn view(&self) -> ButtonView {
        ButtonView { label: self.label@, action: self.action, id: self.id }
    }
}

impl Button {
    /// A button that shows `label` and resolves to `action` when clicked.
    /// A button that is rebuilt on every frame is given the same `id` each
    /// time.
    pub fn new(label: String, action: InterfaceAction, id: WidgetId) -> (button: Button)
        ensures
            button@ == (ButtonView { label: label@, action, id }),
    {
        Button { label, action, id }
    }

    /// The text on the button.
    pub fn label(&self) -> (label: &str)
        ensures
            label@ == self@.label,
    {
        self.label.as_str()
    }

    /// What a click on the button resolves to.
    pub fn action(&self) -> (action: InterfaceAction)
        ensures
            action == self@.action,
    {
        self.action
    }

    pub fn id(&self) -> (id: WidgetId)
        ensures
            id == self@.id,
    {
        self.id
    }

    /// What the button brings to a render pass when drawn on `area`.
    pub open spec fn widget(&self, area: Rect) -> Widget {
        Widget { id: self@.id, area, action: self@.action }
    }

    /// Takes the button's part in the render pass and hands back the lines
    /// of its label as they are to be drawn on `area`.
    ///
    /// The button asks whether it is hovered and whether it is pressed, and
    /// offers its action for a click. The lines are styled by what it was
    /// told: by the hover and press targets as they were when the frame
    /// began.
    pub fn render(self, area: Rect, context: &mut RenderContext) -> (lines: Vec<Span>)
        ensures
            final(context)@ == old(context)@.render(self.widget(area)),
            lines@.len() == spec_split_lines(self@.label).len(),
            forall|i: int|
                0 <= i < lines@.len() ==> {
                    &&& (#[trigger] lines@[i]).content@ == spec_split_lines(self@.label)[i]
                    &&& lines@[i].style == label_style(
                        old(context)@.current_hover == Some(self@.id),
                        old(context)@.current_mouse_down == Some(self@.id),
                    )
                },
    {
        let seen = context.interact(self.id, area, self.action);
        let hovered = seen.hovered;
        let pressed = seen.pressed;
        let pieces = split_lines(self.label.as_str());
        let mut lines: Vec<Span> = Vec::new();
        let mut i: usize = 0;
        while i < pieces.len()
            invariant
                i <= pieces@.len(),
                lines@.len() == i,
                forall|k: int|
                    0 <= k < i ==> {
                        &&& (#[trigger] lines@[k]).content@ == pieces@[k]@
                        &&& lines@[k].style == label_style(hovered, pressed)
                    },
            decreases pieces@.len() - i,
        {
            lines.push(text_style(pieces[i].as_str(), hovered, pressed));
            i = i + 1;
        }
        lines
    }
}

} // verus!
