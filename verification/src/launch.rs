//! Hand-off of the startup arguments, and what the launch callback decides.

use vstd::prelude::*;
use crate::display::IosDisplay;
use crate::payload::WindowPayload;

verus! {

/// Graphics API version asked for first.
pub const PREFERRED_API: u32 = 3;

/// Graphics API version asked for when the preferred one cannot be had.
pub const FALLBACK_API: u32 = 2;

/// Frames per second asked of the view controller.
pub const PREFERRED_FRAMES_PER_SECOND: u32 = 60;

/// The part of the configuration that the launch reads.
#[derive(Clone, Copy, Debug, PartialEq, Eq, Structural)]
pub struct Conf {
    pub high_dpi: bool,
}

impl Conf {
    /// By how much the launch multiplies the screen's own scale: a
    /// configuration that asks for high DPI doubles it, any other leaves
    /// it as it is.
    pub fn scale_multiplier(&self) -> (factor: u32)
        ensures
            factor == if self.high_dpi { 2u32 } else { 1u32 },
    {
        if self.high_dpi {
            2
        } else {
            1
        }
    }
}

/// Where the entry point leaves the startup factory and the configuration
/// for the launch callback. What is taken out is gone.
pub struct StartupSlot<F> {
    pub args: Option<(F, Conf)>,
}

impl<F> StartupSlot<F> {
    pub open spec fn is_empty(self) -> bool {
        self.args.is_none()
    }

    /// The slot as a take leaves it.
    pub open spec fn after_take(self) -> Self {
        StartupSlot { args: None }
    }

    /// The slot as a store leaves it.
    pub open spec fn after_store(self, f: F, conf: Conf) -> Self {
        StartupSlot { args: Some((f, conf)) }
    }

    /// A slot with nothing in it.
    pub fn new() -> (slot: Self)
        ensures
            slot.is_empty(),
    {
        StartupSlot { args: None }
    }

    /// Whether there is something to take.
    pub fn has_args(&self) -> (full: bool)
        ensures
            full == !self.is_empty(),
    {
        self.args.is_some()
    }

    /// Leaves the arguments in the slot, in place of whatever it held.
    pub fn store(&mut self, f: F, conf: Conf)
        ensures
            *final(self) == old(self).after_store(f, conf),
            !final(self).is_empty(),
    {
        self.args = Some((f, conf));
    }

    /// Takes out what the slot holds, and leaves the slot empty. To take
    /// from an empty slot is a fault that nothing recovers from, so an empty
    /// slot is not accepted.
    pub fn take(&mut self) -> (args: (F, Conf))
        requires
            !old(self).is_empty(),
        ensures
            Some(args) == old(self).args,
            *final(self) == old(self).after_take(),
            final(self).is_empty(),
    {
        self.args.take().unwrap()
    }
}

/// The slot is consumed once. Whatever a slot holds, a take leaves it
/// empty, and an empty slot admits no take: after one take there is no
/// second, however many are tried, until something is stored again. A store
/// makes exactly what was stored the next thing to be taken.
pub proof fn lemma_slot_taken_once<F>(slot: StartupSlot<F>, f: F, conf: Conf)
    ensures
        slot.after_take().is_empty(),
        slot.after_take().after_take() == slot.after_take(),
        !slot.after_store(f, conf).is_empty(),
        slot.after_store(f, conf).args == Some((f, conf)),
        slot.after_store(f, conf).after_take().is_empty(),
{
}

/// Which graphics API the window ends up with.
#[derive(Clone, Copy, Debug, PartialEq, Eq, Structural)]
pub struct ContextChoice {
    /// The API version of the context in use.
    pub api: u32,
    /// The preferred version could not be had.
    pub gles2: bool,
}

impl ContextChoice {
    /// The choice that follows the attempt at the preferred API: that
    /// version if a context was created, else the fallback version, with the
    /// downgrade recorded.
    pub fn after_attempt(preferred_created: bool) -> (choice: ContextChoice)
        ensures
            choice.api == if preferred_created { PREFERRED_API } else { FALLBACK_API },
            choice.gles2 == !preferred_created,
    {
        if preferred_created {
            ContextChoice { api: PREFERRED_API, gles2: false }
        } else {
            ContextChoice { api: FALLBACK_API, gles2: true }
        }
    }
}

/// Colour layout of the drawable.
#[derive(Clone, Copy, Debug, PartialEq, Eq, Structural)]
pub enum ColorFormat {
    Rgba8888,
    Rgb565,
    Srgba8888,
}

/// Depth buffer of the drawable.
#[derive(Clone, Copy, Debug, PartialEq, Eq, Structural)]
pub enum DepthFormat {
    FormatNone,
    Format16,
    Format24,
}

/// Stencil buffer of the drawable.
#[derive(Clone, Copy, Debug, PartialEq, Eq, Structural)]
pub enum StencilFormat {
    FormatNone,
    Format8,
}

/// How the launch sets up the drawable view and its controller.
/// `content_scale` is the bit pattern of the display's scale.
#[derive(Clone, Copy, Debug, PartialEq, Eq, Structural)]
pub struct ViewSettings {
    pub color_format: ColorFormat,
    pub depth_format: DepthFormat,
    pub stencil_format: StencilFormat,
    pub enable_set_needs_display: bool,
    pub user_interaction: bool,
    pub multiple_touch: bool,
    pub content_scale: u64,
    pub frames_per_second: u32,
}

/// What the launch callback builds once the screen has been measured and a
/// graphics context made.
pub struct Launch<C, H, F> {
    pub payload: WindowPayload<C, H, F>,
    pub view: ViewSettings,
    /// What the runtime is told of the launch. No launch reports a failure.
    pub succeeded: bool,
}

/// The view settings of every launch, for a display of the given scale:
/// 32-bit colour, 24-bit depth, no stencil, redraw driven by the controller
/// alone at the preferred frame rate, touches and multi-touch on.
pub open spec fn view_settings(scale: u64) -> ViewSettings {
    ViewSettings {
        color_format: ColorFormat::Rgba8888,
        depth_format: DepthFormat::Format24,
        stencil_format: StencilFormat::FormatNone,
        enable_set_needs_display: false,
        user_interaction: true,
        multiple_touch: true,
        content_scale: scale,
        frames_per_second: PREFERRED_FRAMES_PER_SECOND,
    }
}

/// The launch callback's result, from the startup arguments as taken from
/// the slot, the screen's pixel size and effective scale, and the outcome of
/// the attempt at the preferred graphics API. The payload is fresh: it holds
/// the factory, and neither a context nor an event handler. It records the
/// downgrade where the preferred API could not be had; the launch succeeds
/// all the same.
pub fn did_finish_launching_with_options<C, H, F>(
    f: F,
    conf: Conf,
    screen_width: i32,
    screen_height: i32,
    scale: u64,
    preferred_created: bool,
) -> (launch: Launch<C, H, F>)
    ensures
        launch.payload == WindowPayload::<C, H, F>::fresh(
            IosDisplay::launched(screen_width, screen_height, conf.high_dpi, scale),
            !preferred_created,
            f,
        ),
        launch.view == view_settings(scale),
        launch.succeeded,
        launch.payload.can_draw(),
        !launch.payload.is_ready(),
{
    let choice = ContextChoice::after_attempt(preferred_created);
    let display = IosDisplay::new(screen_width, screen_height, conf.high_dpi, scale);
    Launch {
        payload: WindowPayload::new(display, choice.gles2, f),
        view: ViewSettings {
            color_format: ColorFormat::Rgba8888,
            depth_format: DepthFormat::Format24,
            stencil_format: StencilFormat::FormatNone,
            enable_set_needs_display: false,
            user_interaction: true,
            multiple_touch: true,
            content_scale: scale,
            frames_per_second: PREFERRED_FRAMES_PER_SECOND,
        },
        succeeded: true,
    }
}

} // verus!
