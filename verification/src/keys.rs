//! Key bindings: which command a key press stands for.

use vstd::prelude::*;
use crate::flags::Modifiers;

verus! {

/// A key press as bindings know it: the modifiers held, and the symbol of the
/// key taken without any modifier. Two presses are the same when both parts
/// are.
#[derive(Clone, Copy, Debug, PartialEq, Eq, Structural, Hash)]
pub struct KeyPress {
    pub modifiers: Modifiers,
    pub symbol: u32,
}

impl KeyPress {
    /// The press of the key with symbol `symbol` while `modifiers` are held.
    pub fn new(modifiers: Modifiers, symbol: u32) -> (press: KeyPress)
        ensures
            press == (KeyPress { modifiers, symbol }),
    {
        KeyPress { modifiers, symbol }
    }
}

/// What a bound key does.
#[derive(Clone, Copy, Debug, PartialEq, Eq, Structural, Hash)]
pub enum Command {
    /// Runs the built-in command with this number, at once.
    Builtin(u32),
    /// Hands the key press to the scripting engine.
    ScriptDispatch,
}

/// One binding.
#[derive(Clone, Copy, Debug, PartialEq, Eq, Structural, Hash)]
pub struct Binding {
    pub press: KeyPress,
    pub command: Command,
}

/// The bindings in the order in which they were made, as a map: a later
/// binding of a key press replaces an earlier one.
pub open spec fn bindings_of(entries: Seq<Binding>) -> Map<KeyPress, Command>
    decreases entries.len(),
{
    if entries.len() == 0 {
        Map::empty()
    } else {
        bindings_of(entries.drop_last()).insert(entries.last().press, entries.last().command)
    }
}

/// The command that `bindings` gives for `press`.
pub open spec fn resolve(bindings: Map<KeyPress, Command>, press: KeyPress) -> Option<Command> {
    if bindings.dom().contains(press) {
        Some(bindings[press])
    } else {
        None
    }
}

/// The table of key bindings.
#[derive(Debug)]
pub struct KeyBindings {
    entries: Vec<Binding>,
}

impl View for KeyBindings {
    type V = Map<KeyPress, Command>;

    closed spec fn view(&self) -> Map<KeyPress, Command> {
        bindings_of(self.entries@)
    }
}

impl KeyBindings {
    /// A table without bindings.
    pub fn new() -> (table: KeyBindings)
        ensures
            table@ == Map::<KeyPress, Command>::empty(),
    {
        KeyBindings { entries: Vec::new() }
    }

    /// Binds `press` to `command`, in place of what it was bound to.
    pub fn bind(&mut self, press: KeyPress, command: Command)
        ensures
            final(self)@ == old(self)@.insert(press, command),
    {
        self.entries.push(Binding { press, command });
        proof {
            let after = self.entries@;
            assert(after.drop_last() =~= old(self).entries@);
        }
    }

    /// The command bound to `press`, if there is one.
    pub fn get(&self, press: KeyPress) -> (found: Option<Command>)
        ensures
            found == resolve(self@, press),
    {
        let mut i: usize = self.entries.len();
        proof {
            assert(self.entries@.take(i as int) =~= self.entries@);
        }
        while i > 0
            invariant
                i <= self.entries.len(),
                resolve(self@, press) == resolve(bindings_of(self.entries@.take(i as int)), press),
            decreases i,
        {
            let entry = self.entries[i - 1];
            proof {
                let upto = self.entries@.take(i as int);
                assert(upto.drop_last() =~= self.entries@.take(i - 1));
                assert(upto.last() == entry);
            }
            if entry.press == press {
                return Some(entry.command);
            }
            i = i - 1;
        }
        None
    }
}

} // verus!
