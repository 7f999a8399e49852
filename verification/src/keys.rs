//! Which keys are held down, indexed by physical key code.

use vstd::prelude::*;

verus! {

/// Number of entries in a key table; every physical key code is below it.
pub const KEY_TABLE_LEN: usize = 255;

/// A table of held keys: entry `code` is `true` while that key is down.
pub struct KeyTable {
    pressed: Vec<bool>,
}

impl KeyTable {
    /// The table has one entry per key code.
    pub open spec fn wf(&self) -> bool {
        self.view().len() == KEY_TABLE_LEN
    }

    /// The held state of each key code.
    pub closed spec fn view(&self) -> Seq<bool> {
        self.pressed@
    }

    /// A table in which no key is held.
    pub fn new() -> (t: Self)
        ensures
            t.wf(),
            forall|i: int| 0 <= i < KEY_TABLE_LEN ==> !#[trigger] t.view()[i],
    {
        let mut pressed: Vec<bool> = Vec::new();
        while pressed.len() < KEY_TABLE_LEN
            invariant
                pressed.len() <= KEY_TABLE_LEN,
                forall|i: int| 0 <= i < pressed.len() ==> !pressed@[i],
            decreases KEY_TABLE_LEN - pressed.len(),
        {
            pressed.push(false);
        }
        KeyTable { pressed }
    }

    /// Records a key event: the key `code` (if the event names one) is now
    /// held or released according to `pressed`; every other entry is kept.
    pub fn record(&mut self, code: Option<usize>, pressed: bool)
        requires
            old(self).wf(),
            code matches Some(c) ==> c < KEY_TABLE_LEN,
        ensures
            final(self).wf(),
            final(self).view() == match code {
                Some(c) => old(self).view().update(c as int, pressed),
                None => old(self).view(),
            },
    {
        if let Some(c) = code {
            self.pressed.set(c, pressed);
        }
    }

    /// Whether key `code` is held.
    pub fn is_pressed(&self, code: usize) -> (b: bool)
        requires
            self.wf(),
            code < KEY_TABLE_LEN,
        ensures
            b == self.view()[code as int],
    {
        self.pressed[code]
    }
}

/// What a key table reports after an event is what the event said about
/// that key; every other key reads as before.
pub proof fn lemma_record_then_read(t: KeyTable, u: KeyTable, code: usize, pressed: bool, other: usize)
    requires
        t.wf(),
        code < KEY_TABLE_LEN,
        other < KEY_TABLE_LEN,
        other != code,
        u.view() == t.view().update(code as int, pressed),
    ensures
        u.wf(),
        u.view()[code as int] == pressed,
        u.view()[other as int] == t.view()[other as int],
{
}

/// The square demo's way of handling a key event: if the key is pressed
/// and named, it becomes held; else if it is named, it becomes released;
/// an unnamed key changes nothing.
pub open spec fn pressed_then_released(table: Seq<bool>, code: Option<usize>, pressed: bool) -> Seq<bool> {
    if pressed && code is Some {
        table.update(code->0 as int, true)
    } else if code is Some {
        table.update(code->0 as int, false)
    } else {
        table
    }
}

/// The square demo's two-branch key handling and the brightness demo's
/// "held = pressed" handling give the same table: `record`'s.
pub proof fn lemma_key_handlers_agree(t: KeyTable, code: Option<usize>, pressed: bool)
    requires
        t.wf(),
        code matches Some(c) ==> c < KEY_TABLE_LEN,
    ensures
        pressed_then_released(t.view(), code, pressed) == match code {
            Some(c) => t.view().update(c as int, pressed),
            None => t.view(),
        },
{
}

} // verus!
