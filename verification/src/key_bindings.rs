//! The key-binding table: named actions bound to chords. A chord matches a
//! binding only by exact equality of the virtual key and of every modifier
//! bit; there is no partial or prefix matching.

use vstd::prelude::*;

verus! {

use crate::keys::{Keys, VirtualKey};

/// A user-triggered action of the window manager.
#[derive(Debug, Clone, Copy, PartialEq, Eq, Structural, Hash)]
pub enum Action {
    ToggleFocusedWindowTiling,
}

/// The default chord for each action.
pub fn default_key_bindings() -> (r: Vec<(Action, Keys)>)
    ensures
        r@ =~= seq![
            (Action::ToggleFocusedWindowTiling, Keys {
                shift: false,
                ctrl: false,
                alt: true,
                win: false,
                key: VirtualKey::T,
            }),
        ],
{
    let mut bindings: Vec<(Action, Keys)> = Vec::new();
    bindings.push((
        Action::ToggleFocusedWindowTiling,
        Keys { shift: false, ctrl: false, alt: true, win: false, key: VirtualKey::T },
    ));
    bindings
}

/// Some binding of the table carries exactly this chord.
pub open spec fn spec_has_binding(bindings: Seq<(Action, Keys)>, keys: Keys) -> bool {
    exists|i: int| 0 <= i < bindings.len() && (#[trigger] bindings[i]).1 == keys
}

/// The action of the first binding whose chord equals `keys` exactly, if
/// any: every modifier bit and the virtual key must agree.
pub fn find_action(bindings: &Vec<(Action, Keys)>, keys: &Keys) -> (r: Option<Action>)
    ensures
        r is Some <==> spec_has_binding(bindings@, *keys),
        r matches Some(a) ==> exists|i: int| 0 <= i < bindings@.len()
            && (#[trigger] bindings@[i]) == (a, *keys)
            && (forall|j: int| 0 <= j < i ==> (#[trigger] bindings@[j]).1 != *keys),
{
    let mut i: usize = 0;
    while i < bindings.len()
        invariant
            0 <= i <= bindings@.len(),
            forall|j: int| 0 <= j < i ==> (#[trigger] bindings@[j]).1 != *keys,
        decreases bindings@.len() - i,
    {
        if bindings[i].1 == *keys {
            return Some(bindings[i].0);
        }
        i = i + 1;
    }
    None
}

/// Exact matching: a chord with the same virtual key but any differing
/// modifier bit is a different chord and matches no binding that carries the
/// original chord.
pub proof fn lemma_chord_requires_exact_modifiers(a: Keys, b: Keys)
    requires
        a.shift != b.shift || a.ctrl != b.ctrl || a.alt != b.alt || a.win != b.win,
    ensures
        a != b,
{
}

} // verus!
