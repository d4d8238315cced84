//! The key bindings, the four flight controls read through them, and the
//! signed scalars the controls stand for.

use vstd::prelude::*;

verus! {

/// The key bound to each of the four flight controls.
///
/// `K` is whatever the input service uses to name a key.
#[derive(Debug)]
pub struct KeyMap<K> {
    pub up: K,
    pub down: K,
    pub cw: K,
    pub anti_cw: K,
}

/// The instantaneous pressed state of the four flight controls.
#[derive(Clone, Copy, Debug, PartialEq, Eq, Structural)]
pub struct Controls {
    pub up: bool,
    pub down: bool,
    pub cw: bool,
    pub anti_cw: bool,
}

/// `1` when the key is held, `0` otherwise.
pub open spec fn unit(held: bool) -> int {
    if held {
        1
    } else {
        0
    }
}

impl Controls {
    /// Thrust input: `+1` for up, `-1` for down; holding both cancels.
    pub open spec fn thrust(self) -> int {
        unit(self.up) - unit(self.down)
    }

    /// Rotation input: `+1` for anti-clockwise, `-1` for clockwise; holding
    /// both cancels. Positive is counter-clockwise.
    pub open spec fn rotation(self) -> int {
        unit(self.anti_cw) - unit(self.cw)
    }

    /// Asks the input service, once per control, whether the key bound to it
    /// is held.
    ///
    /// Each field of the result is an answer that `pressed` gave for the key
    /// that `keymap` binds to that control.
    pub fn read<K: Copy, F: Fn(K) -> bool>(keymap: &KeyMap<K>, pressed: F) -> (c: Controls)
        requires
            call_requires(pressed, (keymap.up,)),
            call_requires(pressed, (keymap.down,)),
            call_requires(pressed, (keymap.cw,)),
            call_requires(pressed, (keymap.anti_cw,)),
        ensures
            call_ensures(pressed, (keymap.up,), c.up),
            call_ensures(pressed, (keymap.down,), c.down),
            call_ensures(pressed, (keymap.cw,), c.cw),
            call_ensures(pressed, (keymap.anti_cw,), c.anti_cw),
    {
        let up = pressed(keymap.up);
        let down = pressed(keymap.down);
        let cw = pressed(keymap.cw);
        let anti_cw = pressed(keymap.anti_cw);
        Controls { up, down, cw, anti_cw }
    }

    /// Computes [`Controls::thrust`].
    pub fn thrust_input(&self) -> (t: i32)
        ensures
            t == self.thrust(),
    {
        let mut t: i32 = 0;
        if self.up {
            t = t + 1;
        }
        if self.down {
            t = t - 1;
        }
        t
    }

    /// Computes [`Controls::rotation`].
    pub fn rotation_input(&self) -> (r: i32)
        ensures
            r == self.rotation(),
    {
        let mut r: i32 = 0;
        if self.anti_cw {
            r = r + 1;
        }
        if self.cw {
            r = r - 1;
        }
        r
    }
}

/// Both inputs are one of `-1`, `0`, `+1`, and each is zero exactly when its
/// two keys are both held or both released.
pub proof fn lemma_inputs_are_signs(c: Controls)
    ensures
        -1 <= c.thrust() <= 1,
        -1 <= c.rotation() <= 1,
        c.thrust() == 0 <==> c.up == c.down,
        c.rotation() == 0 <==> c.cw == c.anti_cw,
{
}

} // verus!
