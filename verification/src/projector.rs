//! The projection of a form onto what a renderer draws: two bordered panels,
//! one above the other, the active one emphasised.
//!
//! The projection draws nothing. It describes the panels; a renderer places
//! them on its surface and decides how emphasis looks and where the status
//! message goes.

use vstd::prelude::*;
use crate::form::{InputMode, Login, LoginView};

verus! {

/// The space left free around the panels, in cells.
pub const MARGIN: u16 = 2;

/// The greatest height of a panel, borders included, in rows.
pub const PANEL_HEIGHT: u16 = 3;

/// How a panel is set off from the other.
#[derive(Clone, Copy, Debug, PartialEq, Eq, Structural)]
pub enum Emphasis {
    /// The panel of the field that is not active.
    Neutral,
    /// The panel of the active field.
    Highlighted,
}

/// The mathematical value of a [`Panel`].
#[verifier::ext_equal]
pub struct PanelView {
    pub title: Seq<char>,
    pub content: Seq<char>,
    pub emphasis: Emphasis,
    pub bordered: bool,
    pub max_height: u16,
}

/// A panel with a title and one line of text inside. Where `bordered` holds
/// it has a border on all four sides, with the title on the upper one.
#[derive(Debug, PartialEq, Eq)]
pub struct Panel {
    pub title: String,
    pub content: String,
    pub emphasis: Emphasis,
    pub bordered: bool,
    pub max_height: u16,
}

impl View for Panel {
    type V = PanelView;

    open spec fn view(&self) -> PanelView {
        PanelView {
            title: self.title@,
            content: self.content@,
            emphasis: self.emphasis,
            bordered: self.bordered,
            max_height: self.max_height,
        }
    }
}

/// The mathematical value of a [`Layout`].
#[verifier::ext_equal]
pub struct LayoutView {
    pub margin: u16,
    pub top: PanelView,
    pub bottom: PanelView,
    pub status: Option<Seq<char>>,
}

/// What a renderer draws for a form: `top` above `bottom`, inside a margin,
/// and, where the renderer has a place for it, the status message.
#[derive(Debug, PartialEq, Eq)]
pub struct Layout {
    pub margin: u16,
    pub top: Panel,
    pub bottom: Panel,
    pub status: Option<String>,
}

impl View for Layout {
    type V = LayoutView;

    open spec fn view(&self) -> LayoutView {
        LayoutView {
            margin: self.margin,
            top: self.top@,
            bottom: self.bottom@,
            status: match self.status {
                Some(text) => Some(text@),
                None => None,
            },
        }
    }
}

/// The emphasis of the panel of `field` when `active` is the active field.
pub open spec fn emphasis_spec(field: InputMode, active: InputMode) -> Emphasis {
    if field == active {
        Emphasis::Highlighted
    } else {
        Emphasis::Neutral
    }
}

/// The layout of a form: the username panel on top, the password panel
/// below, both bordered, each showing its buffer as it is, the active one
/// highlighted.
pub open spec fn projection(s: LoginView) -> LayoutView {
    LayoutView {
        margin: MARGIN,
        top: PanelView {
            title: "Username"@,
            content: s.username,
            emphasis: emphasis_spec(InputMode::Username, s.input_mode),
            bordered: true,
            max_height: PANEL_HEIGHT,
        },
        bottom: PanelView {
            title: "Password"@,
            content: s.password,
            emphasis: emphasis_spec(InputMode::Password, s.input_mode),
            bordered: true,
            max_height: PANEL_HEIGHT,
        },
        status: s.status_message,
    }
}

fn emphasis(field: InputMode, active: InputMode) -> (e: Emphasis)
    ensures
        e == emphasis_spec(field, active),
{
    match (field, active) {
        (InputMode::Username, InputMode::Username) => Emphasis::Highlighted,
        (InputMode::Password, InputMode::Password) => Emphasis::Highlighted,
        _ => Emphasis::Neutral,
    }
}

/// Projects a form onto its layout. The form is not changed.
pub fn project(state: &Login) -> (layout: Layout)
    ensures
        layout@ == projection(state@),
{
    let status = match state.status_message() {
        Some(text) => Some(text.to_owned()),
        None => None,
    };
    Layout {
        margin: MARGIN,
        top: Panel {
            title: "Username".to_owned(),
            content: state.username().to_owned(),
            emphasis: emphasis(InputMode::Username, state.input_mode()),
            bordered: true,
            max_height: PANEL_HEIGHT,
        },
        bottom: Panel {
            title: "Password".to_owned(),
            content: state.password().to_owned(),
            emphasis: emphasis(InputMode::Password, state.input_mode()),
            bordered: true,
            max_height: PANEL_HEIGHT,
        },
        status,
    }
}

/// Exactly one panel of a projection is highlighted: the top one when the
/// username field is active, the bottom one when the password field is.
pub proof fn lemma_one_panel_highlighted(s: LoginView)
    ensures
        (projection(s).top.emphasis == Emphasis::Highlighted) <==> s.input_mode
            == InputMode::Username,
        (projection(s).bottom.emphasis == Emphasis::Highlighted) <==> s.input_mode
            == InputMode::Password,
        (projection(s).top.emphasis == Emphasis::Highlighted) != (projection(s).bottom.emphasis
            == Emphasis::Highlighted),
{
}

} // verus!
