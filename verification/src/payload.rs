//! The per-window payload and what the view callbacks decide on it.

use vstd::prelude::*;
use crate::display::IosDisplay;
use crate::display::NativeDisplayData;

verus! {

/// Stage of a touch's life that a touch callback reports.
#[derive(Clone, Copy, Debug, PartialEq, Eq, Structural)]
pub enum TouchPhase {
    Started,
    Moved,
    Ended,
    Cancelled,
}

/// One finger on the view: the runtime's identifier for it and its position.
/// The position is carried through untouched.
#[derive(Debug, PartialEq)]
pub struct Touch<P> {
    pub id: u64,
    pub position: P,
}

/// A touch event owed to the event handler.
#[derive(Debug, PartialEq)]
pub struct TouchEvent<P> {
    pub phase: TouchPhase,
    pub id: u64,
    pub position: P,
}

/// An event owed to the event handler during one draw callback.
#[derive(Clone, Copy, Debug, PartialEq, Eq, Structural)]
pub enum FrameEvent {
    /// The screen now has this many pixels.
    Resize { width: i32, height: i32 },
    Update,
    Draw,
}

/// Everything one window owns: its display, the graphics context and the
/// event handler once they are built, and until then the factory that
/// builds the event handler.
pub struct WindowPayload<C, H, F> {
    pub display: IosDisplay,
    pub context: Option<C>,
    pub event_handler: Option<H>,
    pub gles2: bool,
    pub f: Option<F>,
}

/// The events of one draw callback, in the order in which they are owed:
/// a resize if the size changed, then update and draw. A window that is not
/// ready is owed none.
pub open spec fn frame_events(
    ready: bool,
    resized: bool,
    width: i32,
    height: i32,
) -> Seq<FrameEvent> {
    if !ready {
        Seq::empty()
    } else if resized {
        seq![FrameEvent::Resize { width, height }, FrameEvent::Update, FrameEvent::Draw]
    } else {
        seq![FrameEvent::Update, FrameEvent::Draw]
    }
}

/// The touch events of one touch callback: one per touch, in the order in
/// which the runtime listed the touches, or none if the window is not ready.
pub open spec fn touch_events<P>(
    ready: bool,
    phase: TouchPhase,
    touches: Seq<Touch<P>>,
) -> Seq<TouchEvent<P>> {
    if ready {
        Seq::new(
            touches.len(),
            |i: int| TouchEvent { phase, id: touches[i].id, position: touches[i].position },
        )
    } else {
        Seq::empty()
    }
}

impl<C, H, F> WindowPayload<C, H, F> {
    /// Both the graphics context and the event handler exist.
    pub open spec fn is_ready(self) -> bool {
        self.context.is_some() && self.event_handler.is_some()
    }

    /// A draw callback can go ahead: either the event handler exists, or
    /// the factory that builds it is still there.
    pub open spec fn can_draw(self) -> bool {
        self.event_handler.is_none() ==> self.f.is_some()
    }

    /// The payload before the first draw callback.
    pub open spec fn fresh(display: IosDisplay, gles2: bool, f: F) -> Self {
        WindowPayload { display, context: None, event_handler: None, gles2, f: Some(f) }
    }

    /// The payload once a draw callback has looked for the factory.
    pub open spec fn after_begin_draw(self) -> Self {
        if self.event_handler.is_none() {
            WindowPayload { f: None, ..self }
        } else {
            self
        }
    }

    /// What a draw callback hands out for construction.
    pub open spec fn factory_due(self) -> Option<F> {
        if self.event_handler.is_none() {
            self.f
        } else {
            None
        }
    }

    /// The payload with a context and an event handler put in.
    pub open spec fn with_installed(self, context: C, event_handler: H) -> Self {
        WindowPayload { context: Some(context), event_handler: Some(event_handler), ..self }
    }

    /// The payload with the screen size recorded.
    pub open spec fn with_screen_size(self, screen_width: i32, screen_height: i32) -> Self {
        WindowPayload {
            display: IosDisplay {
                data: NativeDisplayData { screen_width, screen_height, ..self.display.data },
                ..self.display
            },
            ..self
        }
    }

    /// The payload as a draw callback leaves it when the screen has the
    /// given size: the factory is looked for, what the caller built from it
    /// is installed if it was handed out, and the size is recorded.
    pub open spec fn after_draw(self, context: C, event_handler: H, size: (i32, i32)) -> Self {
        self.built_for_draw(context, event_handler).with_screen_size(size.0, size.1)
    }

    /// The payload in the middle of a draw callback, when construction is
    /// over and the frame's events are still to be decided.
    pub open spec fn built_for_draw(self, context: C, event_handler: H) -> Self {
        if self.factory_due().is_some() {
            self.after_begin_draw().with_installed(context, event_handler)
        } else {
            self.after_begin_draw()
        }
    }

    /// The events that a draw callback owes when the screen has the given
    /// size.
    pub open spec fn draw_events(
        self,
        context: C,
        event_handler: H,
        size: (i32, i32),
    ) -> Seq<FrameEvent> {
        let built = self.built_for_draw(context, event_handler);
        frame_events(built.is_ready(), built.size_differs(size.0, size.1), size.0, size.1)
    }

    /// The payload after one draw callback for each of the given screen
    /// sizes, in their order.
    pub open spec fn after_draws(
        self,
        context: C,
        event_handler: H,
        sizes: Seq<(i32, i32)>,
    ) -> Self
        decreases sizes.len(),
    {
        if sizes.len() == 0 {
            self
        } else {
            self.after_draws(context, event_handler, sizes.drop_last()).after_draw(
                context,
                event_handler,
                sizes.last(),
            )
        }
    }

    /// The recorded screen size differs from the given one.
    pub open spec fn size_differs(self, screen_width: i32, screen_height: i32) -> bool {
        self.display.data.screen_width != screen_width
            || self.display.data.screen_height != screen_height
    }

    pub fn new(display: IosDisplay, gles2: bool, f: F) -> (payload: Self)
        ensures
            payload == Self::fresh(display, gles2, f),
    {
        WindowPayload { display, context: None, event_handler: None, gles2, f: Some(f) }
    }

    /// Lends out the graphics context and the event handler together with
    /// the display they work on, if context and handler both exist. What the
    /// borrower leaves in the three is what the payload holds afterwards;
    /// nothing else changes.
    pub fn context(&mut self) -> (parts: Option<(&mut C, &mut H, &mut IosDisplay)>)
        ensures
            parts.is_some() == old(self).is_ready(),
            match parts {
                Some((context, event_handler, display)) => {
                    &&& Some(*context) == old(self).context
                    &&& Some(*event_handler) == old(self).event_handler
                    &&& *display == old(self).display
                    &&& *final(self) == (WindowPayload {
                        display: *final(display),
                        context: Some(*final(context)),
                        event_handler: Some(*final(event_handler)),
                        ..*old(self)
                    })
                },
                None => *final(self) == *old(self),
            },
    {
        match (&mut self.context, &mut self.event_handler) {
            (Some(context), Some(event_handler)) => Some(
                (context, event_handler, &mut self.display),
            ),
            _ => None,
        }
    }

    /// Whether both the graphics context and the event handler exist.
    pub fn ready(&self) -> (ready: bool)
        ensures
            ready == self.is_ready(),
    {
        self.context.is_some() && self.event_handler.is_some()
    }

    /// First step of a draw callback. While there is no event handler, the
    /// factory leaves the payload and is handed out, for the caller to build
    /// a graphics context, run the factory on it, and `install` both. Once
    /// there is an event handler, nothing is handed out and nothing changes.
    pub fn begin_draw(&mut self) -> (factory: Option<F>)
        requires
            old(self).can_draw(),
        ensures
            factory == old(self).factory_due(),
            *final(self) == old(self).after_begin_draw(),
            old(self).event_handler.is_none() ==> factory.is_some(),
    {
        if self.event_handler.is_none() {
            self.f.take()
        } else {
            None
        }
    }

    /// Puts in the graphics context and the event handler that the caller
    /// built. Whatever stood in their places is dropped.
    pub fn install(&mut self, context: C, event_handler: H)
        ensures
            *final(self) == old(self).with_installed(context, event_handler),
            final(self).is_ready(),
    {
        self.context = Some(context);
        self.event_handler = Some(event_handler);
    }

    /// Second step of a draw callback, with the screen's pixel size as the
    /// runtime reports it now. Records the size, and returns the events
    /// owed to the event handler, in order: a resize if the size differs
    /// from the recorded one, then update and draw. A payload that is not
    /// ready records the size and is owed no event.
    pub fn draw_in_rect(
        &mut self,
        screen_width: i32,
        screen_height: i32,
    ) -> (events: Vec<FrameEvent>)
        ensures
            *final(self) == old(self).with_screen_size(screen_width, screen_height),
            events@ == frame_events(
                old(self).is_ready(),
                old(self).size_differs(screen_width, screen_height),
                screen_width,
                screen_height,
            ),
    {
        let ready = self.ready();
        let mut events: Vec<FrameEvent> = Vec::new();
        if self.display.data.screen_width != screen_width
            || self.display.data.screen_height != screen_height
        {
            self.display.data.screen_width = screen_width;
            self.display.data.screen_height = screen_height;
            if ready {
                events.push(FrameEvent::Resize { width: screen_width, height: screen_height });
            }
        }
        if ready {
            events.push(FrameEvent::Update);
            events.push(FrameEvent::Draw);
        }
        events
    }

    /// What a touch callback owes the event handler: one event for each
    /// touch, in the runtime's order, with the callback's phase and the
    /// touch's identifier and position. A payload that is not ready is owed
    /// none.
    pub fn process_event<P: Copy>(
        &self,
        touches: &Vec<Touch<P>>,
        phase: TouchPhase,
    ) -> (events: Vec<TouchEvent<P>>)
        ensures
            events@ == touch_events(self.is_ready(), phase, touches@),
    {
        let mut events: Vec<TouchEvent<P>> = Vec::new();
        if self.ready() {
            let mut i: usize = 0;
            while i < touches.len()
                invariant
                    i <= touches.len(),
                    events@ == touch_events(true, phase, touches@.take(i as int)),
                decreases touches.len() - i,
            {
                let position: P = touches[i].position;
                events.push(TouchEvent { phase, id: touches[i].id, position });
                i = i + 1;
            }
        }
        events
    }
}

/// After any number of draw callbacks, one at least, a payload that began
/// without an event handler and with its factory holds the context and the
/// event handler that were built in the first, and no factory.
pub proof fn lemma_built_once_stays<C, H, F>(
    payload: WindowPayload<C, H, F>,
    context: C,
    event_handler: H,
    sizes: Seq<(i32, i32)>,
)
    requires
        payload.event_handler.is_none(),
        payload.f.is_some(),
        sizes.len() >= 1,
    ensures
        ({
            let after = payload.after_draws(context, event_handler, sizes);
            &&& after.context == Some(context)
            &&& after.event_handler == Some(event_handler)
            &&& after.f.is_none()
            &&& after.gles2 == payload.gles2
            &&& after.display.data.screen_width == sizes.last().0
            &&& after.display.data.screen_height == sizes.last().1
        }),
    decreases sizes.len(),
{
    if sizes.len() == 1 {
        assert(sizes.drop_last().len() == 0);
        assert(payload.after_draws(context, event_handler, sizes.drop_last()) == payload);
    } else {
        lemma_built_once_stays(payload, context, event_handler, sizes.drop_last());
    }
}

/// The factory runs once, however many draw callbacks follow. Take a
/// payload that has no event handler yet and still holds its factory, and
/// any run of draw callbacks on it. The callback at place `k` hands the
/// factory out if it is the first of the run, and only then; every later
/// one finds the context and the event handler of the first in place and
/// leaves them there. Each callback of the run, the first included, owes
/// the handler exactly one update followed by one draw, with nothing but a
/// resize before them.
pub proof fn lemma_factory_runs_once<C, H, F>(
    payload: WindowPayload<C, H, F>,
    context: C,
    event_handler: H,
    sizes: Seq<(i32, i32)>,
    k: int,
)
    requires
        payload.event_handler.is_none(),
        payload.f.is_some(),
        0 <= k < sizes.len(),
    ensures
        ({
            let before = payload.after_draws(context, event_handler, sizes.take(k));
            let events = before.draw_events(context, event_handler, sizes[k]);
            let after = before.after_draw(context, event_handler, sizes[k]);
            let n = events.len();
            &&& before.can_draw()
            &&& before.factory_due().is_some() <==> k == 0
            &&& k == 0 ==> before.factory_due() == payload.f
            &&& k > 0 ==> before.context == Some(context) && before.event_handler == Some(
                event_handler,
            )
            &&& after.context == Some(context)
            &&& after.event_handler == Some(event_handler)
            &&& after.f.is_none()
            &&& after == payload.after_draws(context, event_handler, sizes.take(k + 1))
            &&& 2 <= n <= 3
            &&& events[n - 2] == FrameEvent::Update
            &&& events[n - 1] == FrameEvent::Draw
            &&& n == 3 ==> events[0] is Resize
        }),
{
    let run = sizes.take(k);
    let next = sizes.take(k + 1);
    assert(next.drop_last() =~= run);
    assert(next.last() == sizes[k]);
    if k == 0 {
        assert(payload.after_draws(context, event_handler, run) == payload);
    } else {
        lemma_built_once_stays(payload, context, event_handler, run);
    }
}

/// A resize fires when the size changed, and only then. For a ready
/// payload and a reported size: the events always end in update and draw;
/// if the size differs from the recorded one, exactly one resize with the
/// new size goes before them; if it does not, nothing goes before them.
/// Either way the new size is the recorded one afterwards, so the same size
/// reported again gives no resize.
pub proof fn lemma_resize_iff_size_changed<C, H, F>(
    payload: WindowPayload<C, H, F>,
    screen_width: i32,
    screen_height: i32,
)
    requires
        payload.is_ready(),
    ensures
        ({
            let differs = payload.size_differs(screen_width, screen_height);
            let events = frame_events(true, differs, screen_width, screen_height);
            let n = events.len();
            &&& n == if differs { 3nat } else { 2nat }
            &&& events[n - 2] == FrameEvent::Update
            &&& events[n - 1] == FrameEvent::Draw
            &&& differs ==> events[0] == (FrameEvent::Resize {
                width: screen_width,
                height: screen_height,
            })
            &&& forall|i: int|
                0 <= i < n ==> ((#[trigger] events[i]) is Resize <==> (differs && i == 0))
        }),
        !payload.with_screen_size(screen_width, screen_height).size_differs(
            screen_width,
            screen_height,
        ),
        payload.with_screen_size(screen_width, screen_height).is_ready(),
{
}

/// Touches are neither lost, added nor reordered: a ready payload is owed
/// as many events as there are touches, and the event at each place has the
/// callback's phase and that touch's identifier and position.
pub proof fn lemma_one_event_per_touch<P>(phase: TouchPhase, touches: Seq<Touch<P>>)
    ensures
        touch_events(true, phase, touches).len() == touches.len(),
        forall|i: int|
            0 <= i < touches.len() ==> {
                let event = #[trigger] touch_events(true, phase, touches)[i];
                &&& event.phase == phase
                &&& event.id == touches[i].id
                &&& event.position == touches[i].position
            },
        touch_events(false, phase, touches).len() == 0,
{
}

} // verus!
