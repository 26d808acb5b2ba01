//! What every UI component shares: how it answers events, what it offers to
//! the command bar, and how its visibility is toggled.

use vstd::prelude::*;
use crate::input::{KeyBinding, KeyConfig};

verus! {

/// Whether a component kept an event for itself.
#[derive(Clone, Copy, Debug, PartialEq, Eq, Hash, Structural)]
pub enum EventState {
    Consumed,
    NotConsumed,
}

/// Whether the components beneath this one may still offer commands.
#[derive(Clone, Copy, Debug, PartialEq, Eq, Hash, Structural)]
pub enum CommandBlocking {
    Blocking,
    PassingOn,
}

/// A component that is shown owns the command bar; a hidden one passes it on.
pub open spec fn blocking_for(visible: bool) -> CommandBlocking {
    if visible {
        CommandBlocking::Blocking
    } else {
        CommandBlocking::PassingOn
    }
}

/// Picks the blocking indicator from a component's visibility.
pub fn visibility_blocking(visible: bool) -> (r: CommandBlocking)
    ensures
        r == blocking_for(visible),
{
    if visible {
        CommandBlocking::Blocking
    } else {
        CommandBlocking::PassingOn
    }
}

pub const CLOSE_NAME: &'static str = "Close";
pub const CLOSE_DESC: &'static str = "close overlay (e.g commit, help)";
pub const GROUP_GENERAL: &'static str = "-- General --";

/// The label of a command: its name, a longer description, the group it is
/// listed under in the help, and the key that invokes it.
#[derive(Clone, Copy, Debug)]
pub struct CommandText {
    pub name: &'static str,
    pub desc: &'static str,
    pub group: &'static str,
    pub key: KeyBinding,
}

/// One command offered to the command bar.
#[derive(Clone, Copy, Debug)]
pub struct CommandInfo {
    pub text: CommandText,
    /// The command may be invoked.
    pub enabled: bool,
    /// The command is shown in the bar.
    pub available: bool,
}

/// The label of the command that closes a popup, under the given bindings.
pub open spec fn close_popup_spec(keys: KeyConfig) -> CommandText {
    CommandText { name: CLOSE_NAME, desc: CLOSE_DESC, group: GROUP_GENERAL, key: keys.exit_popup }
}

/// Builds the label of the command that closes a popup.
pub fn close_popup(keys: &KeyConfig) -> (r: CommandText)
    ensures
        r == close_popup_spec(*keys),
{
    CommandText { name: CLOSE_NAME, desc: CLOSE_DESC, group: GROUP_GENERAL, key: keys.exit_popup }
}

impl CommandInfo {
    pub fn new(text: CommandText, enabled: bool, available: bool) -> (r: CommandInfo)
        ensures
            r == (CommandInfo { text, enabled, available }),
    {
        CommandInfo { text, enabled, available }
    }
}

/// A call that changes a component's visibility.
#[derive(Clone, Copy, Debug, PartialEq, Eq, Hash, Structural)]
pub enum Toggle {
    Show,
    Open,
    Close,
}

/// The visibility after one call: `show` and `open` make the component
/// visible, `close` hides it, whatever it was before.
pub open spec fn toggled(visible: bool, t: Toggle) -> bool {
    match t {
        Toggle::Show => true,
        Toggle::Open => true,
        Toggle::Close => false,
    }
}

/// The visibility after a run of calls, made in order.
pub open spec fn replay(visible: bool, ts: Seq<Toggle>) -> bool
    decreases ts.len(),
{
    if ts.len() == 0 {
        visible
    } else {
        toggled(replay(visible, ts.drop_last()), ts.last())
    }
}

/// After any non-empty run of `show`, `open` and `close` calls, the
/// component is visible exactly when the last call was not `close`.
pub proof fn lemma_last_toggle_decides(visible: bool, ts: Seq<Toggle>)
    requires
        ts.len() > 0,
    ensures
        replay(visible, ts) == (ts.last() != Toggle::Close),
{
}

/// Making the same call twice in a row leaves the component as one call
/// did: showing twice keeps it visible, hiding twice keeps it hidden.
pub proof fn lemma_toggle_idempotent(visible: bool, t: Toggle)
    ensures
        toggled(toggled(visible, t), t) == toggled(visible, t),
{
}

} // verus!
