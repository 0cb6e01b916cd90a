//! What a block tells the bar.

use crate::errors::{Error, ErrorView};
use vstd::prelude::*;

verus! {

/// A mouse button that a click action can be bound to.
#[derive(Debug, Clone, Copy, PartialEq, Eq, Structural)]
pub enum MouseButton {
    Left,
    Middle,
    Right,
    WheelUp,
    WheelDown,
    Forward,
    Back,
}

/// One default click binding: the button, an optional widget name that the
/// click has to hit, and the name of the action it triggers.
pub type DefaultAction = (MouseButton, Option<&'static str>, &'static str);

/// Mathematical content of a [`DefaultAction`].
pub type DefaultActionView = (MouseButton, Option<Seq<char>>, Seq<char>);

/// View of one default click binding.
pub open spec fn default_action_view(a: DefaultAction) -> DefaultActionView {
    (
        a.0,
        match a.1 {
            Some(w) => Some(w@),
            None => None,
        },
        a.2@,
    )
}

/// A renderable unit. How it is drawn is the bar's business.
#[derive(Debug)]
pub struct Widget {
    pub text: String,
}

impl View for Widget {
    type V = Seq<char>;

    open spec fn view(&self) -> Seq<char> {
        self.text@
    }
}

impl Clone for Widget {
    fn clone(&self) -> (w: Widget)
        ensures
            w@ == self@,
    {
        Widget { text: self.text.clone() }
    }
}

/// Mathematical content of a [`RequestCmd`].
pub enum RequestCmdView {
    SetWidget(Seq<char>),
    UnsetWidget,
    SetError(ErrorView),
    SetDefaultActions(Seq<DefaultActionView>),
}

/// What the bar is asked to do for a block.
#[derive(Debug)]
pub enum RequestCmd {
    /// Show this widget.
    SetWidget(Widget),
    /// Hide the block until the next widget is set.
    UnsetWidget,
    /// Show this error.
    SetError(Error),
    /// Install these click bindings.
    SetDefaultActions(&'static [DefaultAction]),
}

impl View for RequestCmd {
    type V = RequestCmdView;

    open spec fn view(&self) -> RequestCmdView {
        match self {
            RequestCmd::SetWidget(w) => RequestCmdView::SetWidget(w@),
            RequestCmd::UnsetWidget => RequestCmdView::UnsetWidget,
            RequestCmd::SetError(e) => RequestCmdView::SetError(e@),
            RequestCmd::SetDefaultActions(actions) => RequestCmdView::SetDefaultActions(
                actions@.map_values(|a: DefaultAction| default_action_view(a)),
            ),
        }
    }
}

/// Mathematical content of a [`Request`].
pub struct RequestView {
    pub block_id: usize,
    pub cmd: RequestCmdView,
}

/// A command together with the id of the block instance that issued it.
#[derive(Debug)]
pub struct Request {
    pub block_id: usize,
    pub cmd: RequestCmd,
}

impl View for Request {
    type V = RequestView;

    open spec fn view(&self) -> RequestView {
        RequestView { block_id: self.block_id, cmd: self.cmd@ }
    }
}

} // verus!
