//! Which native objects the window's payload is attached to.
//!
//! A callback names the native object it was fired on. The payload is found
//! again through that object's handle.

use vstd::prelude::*;
use crate::payload::WindowPayload;

verus! {

/// A payload with the handles of the two native objects that carry it: the
/// drawable view and the view's delegate.
pub struct Attached<C, H, F> {
    pub view: usize,
    pub delegate: usize,
    pub payload: WindowPayload<C, H, F>,
}

/// The payload of the process's one window, once it is attached.
pub struct PayloadRegistry<C, H, F> {
    pub window: Option<Attached<C, H, F>>,
}

impl<C, H, F> PayloadRegistry<C, H, F> {
    /// A payload is attached to the object with this handle.
    pub open spec fn carries(self, this: usize) -> bool {
        match self.window {
            Some(attached) => attached.view == this || attached.delegate == this,
            None => false,
        }
    }

    /// A registry with no window.
    pub fn new() -> (registry: Self)
        ensures
            registry.window.is_none(),
    {
        PayloadRegistry { window: None }
    }

    /// Attaches the payload to the view and to its delegate, in place of
    /// whatever was attached before.
    pub fn attach(&mut self, view: usize, delegate: usize, payload: WindowPayload<C, H, F>)
        ensures
            final(self).window == Some(Attached { view, delegate, payload }),
            final(self).carries(view),
            final(self).carries(delegate),
    {
        self.window = Some(Attached { view, delegate, payload });
    }

    /// Whether a payload is attached to the object with this handle. A
    /// callback asks this before it reaches for the payload.
    pub fn is_attached(&self, this: usize) -> (attached: bool)
        ensures
            attached == self.carries(this),
    {
        match &self.window {
            Some(window) => window.view == this || window.delegate == this,
            None => false,
        }
    }

    /// The payload attached to the object with this handle. A callback on
    /// an object that carries no payload is a fault that nothing recovers
    /// from, so such a handle is not accepted. What the borrower leaves in
    /// the payload is what stays attached, to the same two objects.
    pub fn get_window_payload(&mut self, this: usize) -> (payload: &mut WindowPayload<C, H, F>)
        requires
            old(self).carries(this),
        ensures
            *payload == old(self).window.unwrap().payload,
            final(self).window == Some(
                Attached { payload: *final(payload), ..old(self).window.unwrap() },
            ),
    {
        match &mut self.window {
            Some(attached) => &mut attached.payload,
            None => vstd::pervasive::unreached(),
        }
    }
}

/// A payload is found through the two objects it was attached to and
/// through no other, and through a registry without a window nothing is
/// found.
pub proof fn lemma_found_by_its_objects_only<C, H, F>(
    view: usize,
    delegate: usize,
    payload: WindowPayload<C, H, F>,
    this: usize,
)
    ensures
        (PayloadRegistry { window: Some(Attached { view, delegate, payload }) }).carries(this)
            <==> (this == view || this == delegate),
        !(PayloadRegistry::<C, H, F> { window: None }).carries(this),
{
}

} // verus!
