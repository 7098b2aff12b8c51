//! Key dispatch: from a tick's key snapshot to a generator selection.
//!
//! Two logical turn keys each select one double rotation; a held modifier
//! selects the inverse sweep instead. Selection is edge-triggered: only a
//! key pressed this very tick selects anything, so a key held across ticks
//! does not retrigger. The dispatcher starts the selected reorientation
//! only on an idle camera and silently drops a rejected trigger.

use vstd::prelude::*;

use crate::camera::{Camera, Rotating};
use crate::rotation::Generator;

verus! {

/// One tick's snapshot of the turn keys: the edge-triggered "just pressed
/// this tick" state of the two turn keys, and the level state of the
/// modifier key.
#[derive(Clone, Copy, PartialEq, Eq, Structural, Debug)]
pub struct KeySnapshot {
    pub key_a_just_pressed: bool,
    pub key_b_just_pressed: bool,
    pub modifier_held: bool,
}

/// The generator a snapshot selects: key A picks the first double rotation,
/// key B the second, the held modifier picks the inverse sweep, and key A
/// wins when both keys fire in one tick.
pub open spec fn selected_generator(k: KeySnapshot) -> Option<Generator> {
    if k.key_a_just_pressed {
        if k.modifier_held {
            Some(Generator::R1Inv)
        } else {
            Some(Generator::R1)
        }
    } else if k.key_b_just_pressed {
        if k.modifier_held {
            Some(Generator::R2Inv)
        } else {
            Some(Generator::R2)
        }
    } else {
        None
    }
}

/// The generator selected by this tick's keys, if any.
pub fn select_generator(k: &KeySnapshot) -> (r: Option<Generator>)
    ensures
        r == selected_generator(*k),
{
    if k.key_a_just_pressed {
        if k.modifier_held {
            Some(Generator::R1Inv)
        } else {
            Some(Generator::R1)
        }
    } else if k.key_b_just_pressed {
        if k.modifier_held {
            Some(Generator::R2Inv)
        } else {
            Some(Generator::R2)
        }
    } else {
        None
    }
}

/// One tick of input dispatch at clock reading `now`: on an idle camera,
/// starts the reorientation this tick's keys select; an animating camera,
/// or a tick with no fresh key press, leaves the camera untouched.
pub fn rotate_system(k: &KeySnapshot, camera: &mut Camera, now: u64)
    ensures
        old(camera).rotating is Some ==> *final(camera) == *old(camera),
        old(camera).rotating is None ==> match selected_generator(*k) {
            None => *final(camera) == *old(camera),
            Some(g) => *final(camera) == (Camera {
                rotating: Some(Rotating {
                    last_rotation: old(camera).rotation,
                    interpolate: g,
                    start_time: now,
                }),
                ..*old(camera)
            }),
        },
{
    if camera.rotating.is_some() {
        return;
    }
    match select_generator(k) {
        None => {}
        Some(g) => {
            let _ = camera.rotate(g, now);
        }
    }
}

} // verus!
