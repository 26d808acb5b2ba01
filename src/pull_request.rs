//! The pull-request popup: a modal dialog that tells the user the feature
//! is not available yet, and is dismissed with the exit-popup key.

use vstd::prelude::*;
use crate::component::{
    blocking_for, close_popup, close_popup_spec, toggled, visibility_blocking, CommandBlocking,
    CommandInfo, EventState, Toggle,
};
use crate::input::{is_press_of, press_matches, InputEvent, KeyConfig};
use crate::layout::{centered_in, centered_rect_absolute, Rect};

verus! {

/// Width of the dialog, in cells.
pub const POPUP_WIDTH: u16 = 50;
/// Height of the dialog, in cells.
pub const POPUP_HEIGHT: u16 = 10;

pub const TITLE: &'static str = "Pull Request (Coming Soon)";
pub const BLANK: &'static str = "";
pub const LINE_NOT_YET: &'static str = "Pull Request functionality is not yet";
pub const LINE_IMPLEMENTED: &'static str = "implemented. This feature would allow";
pub const LINE_CREATING: &'static str = "creating pull requests to GitHub/GitLab";
pub const LINE_DIRECTLY: &'static str = "directly from gitui.";
pub const LINE_HOW_TO_CLOSE: &'static str = "Press Esc to close this dialog.";

/// The lines of the dialog's text, top to bottom.
pub open spec fn dialog_lines() -> Seq<&'static str> {
    seq![BLANK, LINE_NOT_YET, LINE_IMPLEMENTED, LINE_CREATING, LINE_DIRECTLY, BLANK, LINE_HOW_TO_CLOSE]
}

/// `d` is the dialog drawn on a surface of area `full`: the fixed-size
/// rectangle centred on the surface, with the popup's title and text, styled
/// as focused.
pub open spec fn is_dialog_for(d: DialogView, full: Rect) -> bool {
    &&& (d.area.x as int, d.area.y as int, d.area.width as int, d.area.height as int)
        == centered_in(POPUP_WIDTH as int, POPUP_HEIGHT as int, full)
    &&& full.contains_rect(d.area)
    &&& d.title == TITLE
    &&& d.lines@ == dialog_lines()
    &&& d.active
}

/// What the application shares with its components when it builds them.
#[derive(Clone, Copy, Debug)]
pub struct Environment {
    pub key_config: KeyConfig,
}

/// What a shown popup puts on the screen: the area it clears and fills, a
/// bordered block with a title, and centred, word-wrapped lines of text.
#[derive(Clone, Debug)]
pub struct DialogView {
    pub area: Rect,
    pub title: &'static str,
    pub lines: Vec<&'static str>,
    /// The border and title are styled as those of the focused component.
    pub active: bool,
}

/// The state of a popup that its callers can observe.
pub struct PopupView {
    pub visible: bool,
    pub keys: KeyConfig,
}

/// A modal popup. While it is shown it owns the command bar and takes every
/// input event; while it is hidden it draws nothing and takes none.
pub struct PullRequestPopup {
    visible: bool,
    key_config: KeyConfig,
}

impl View for PullRequestPopup {
    type V = PopupView;

    closed spec fn view(&self) -> PopupView {
        PopupView { visible: self.visible, keys: self.key_config }
    }
}

impl PullRequestPopup {
    /// A hidden popup that uses the environment's key bindings.
    pub fn new(env: &Environment) -> (r: PullRequestPopup)
        ensures
            r@ == (PopupView { visible: false, keys: env.key_config }),
    {
        PullRequestPopup { visible: false, key_config: env.key_config }
    }

    pub fn is_visible(&self) -> (r: bool)
        ensures
            r == self@.visible,
    {
        self.visible
    }

    pub fn show(&mut self)
        ensures
            final(self)@ == (PopupView {
                visible: toggled(old(self)@.visible, Toggle::Show),
                keys: old(self)@.keys,
            }),
    {
        self.visible = true;
    }

    /// Shows the popup; the same as `show`.
    pub fn open(&mut self)
        ensures
            final(self)@ == (PopupView {
                visible: toggled(old(self)@.visible, Toggle::Open),
                keys: old(self)@.keys,
            }),
    {
        self.show();
    }

    pub fn close(&mut self)
        ensures
            final(self)@ == (PopupView {
                visible: toggled(old(self)@.visible, Toggle::Close),
                keys: old(self)@.keys,
            }),
    {
        self.visible = false;
    }

    /// Handles one input event. A hidden popup passes every event on and
    /// stays as it is. A shown popup keeps every event, and hides itself
    /// when the event is a press of the exit-popup key.
    pub fn event(&mut self, ev: &InputEvent) -> (r: EventState)
        ensures
            !old(self)@.visible ==> r == EventState::NotConsumed && final(self)@ == old(self)@,
            old(self)@.visible ==> r == EventState::Consumed && final(self)@ == (PopupView {
                visible: !is_press_of(*ev, old(self)@.keys.exit_popup),
                keys: old(self)@.keys,
            }),
    {
        if self.visible {
            if press_matches(ev, self.key_config.exit_popup) {
                self.close();
            }
            return EventState::Consumed;
        }
        EventState::NotConsumed
    }

    /// Adds the command that closes the popup, shown in the bar only while
    /// the popup is, and tells whether the popup blocks the commands of
    /// the components beneath it.
    pub fn commands(&self, out: &mut Vec<CommandInfo>, force_all: bool) -> (r: CommandBlocking)
        ensures
            final(out)@ == old(out)@.push(
                CommandInfo { text: close_popup_spec(self@.keys), enabled: true, available: self@.visible },
            ),
            r == blocking_for(self@.visible),
    {
        out.push(CommandInfo::new(close_popup(&self.key_config), true, self.visible));
        visibility_blocking(self.visible)
    }

    /// What to draw on a surface of area `full`: nothing while the popup is
    /// hidden; while it is shown, its dialog in a rectangle of fixed size
    /// centred on the surface.
    pub fn draw(&self, full: Rect) -> (r: Option<DialogView>)
        requires
            full.wf(),
        ensures
            !self@.visible ==> r is None,
            self@.visible ==> (r matches Some(d) && is_dialog_for(d, full)),
    {
        if !self.visible {
            return None;
        }
        let area = centered_rect_absolute(POPUP_WIDTH, POPUP_HEIGHT, full);
        let lines = vec![BLANK, LINE_NOT_YET, LINE_IMPLEMENTED, LINE_CREATING, LINE_DIRECTLY, BLANK, LINE_HOW_TO_CLOSE];
        Some(DialogView { area, title: TITLE, lines, active: true })
    }
}

} // verus!
