use ios_backend::launch::did_finish_launching_with_options;
use ios_backend::launch::ColorFormat;
use ios_backend::launch::Conf;
use ios_backend::launch::ContextChoice;
use ios_backend::launch::DepthFormat;
use ios_backend::launch::Launch;
use ios_backend::launch::StartupSlot;
use ios_backend::launch::StencilFormat;
use ios_backend::launch::FALLBACK_API;
use ios_backend::launch::PREFERRED_API;
use ios_backend::launch::PREFERRED_FRAMES_PER_SECOND;

#[test]
fn new_slot_is_empty() {
    let slot: StartupSlot<u8> = StartupSlot::new();
    assert!(slot.args.is_none());
    assert!(!slot.has_args());
}

#[test]
fn slot_gives_its_content_once() {
    let mut slot: StartupSlot<&str> = StartupSlot::new();
    slot.store("factory", Conf { high_dpi: true });
    assert!(slot.has_args());
    assert_eq!(slot.take(), ("factory", Conf { high_dpi: true }));
    assert!(slot.args.is_none());
    assert!(!slot.has_args());
}

#[test]
fn store_replaces_what_the_slot_held() {
    let mut slot: StartupSlot<u8> = StartupSlot::new();
    slot.store(1, Conf { high_dpi: false });
    slot.store(2, Conf { high_dpi: true });
    assert_eq!(slot.take(), (2, Conf { high_dpi: true }));
    assert!(!slot.has_args());
}

#[test]
fn slot_can_be_filled_again_after_a_take() {
    let mut slot: StartupSlot<u8> = StartupSlot::new();
    slot.store(1, Conf { high_dpi: false });
    slot.take();
    slot.store(2, Conf { high_dpi: false });
    assert!(slot.has_args());
    assert_eq!(slot.take(), (2, Conf { high_dpi: false }));
}

#[test]
fn preferred_api_when_it_can_be_had() {
    let choice = ContextChoice::after_attempt(true);
    assert_eq!(choice, ContextChoice { api: 3, gles2: false });
    assert_eq!(PREFERRED_API, 3);
}

#[test]
fn fallback_api_is_recorded() {
    let choice = ContextChoice::after_attempt(false);
    assert_eq!(choice, ContextChoice { api: 2, gles2: true });
    assert_eq!(FALLBACK_API, 2);
}

#[test]
fn launch_builds_a_fresh_payload() {
    let launch: Launch<String, String, u8> = did_finish_launching_with_options(
        9u8,
        Conf { high_dpi: true },
        1500,
        2668,
        4.0f64.to_bits(),
        true,
    );
    let payload = launch.payload;
    assert_eq!(payload.display.screen_size(), (1500, 2668));
    assert!(payload.display.high_dpi());
    assert_eq!(f64::from_bits(payload.display.scale), 4.0);
    assert_eq!(f32::from_bits(payload.display.dpi_scale()), 1.0);
    assert!(!payload.display.data.quit_requested);
    assert!(!payload.display.data.quit_ordered);
    assert!(!payload.gles2);
    assert_eq!(payload.f, Some(9));
    assert!(payload.context.is_none());
    assert!(payload.event_handler.is_none());
}

#[test]
fn launch_records_the_downgrade() {
    let launch: Launch<String, String, u8> = did_finish_launching_with_options(
        9u8,
        Conf { high_dpi: false },
        320,
        480,
        1.0f64.to_bits(),
        false,
    );
    assert!(launch.payload.gles2);
    assert!(!launch.payload.display.high_dpi());
}

#[test]
fn launch_view_settings() {
    let launch: Launch<String, String, u8> = did_finish_launching_with_options(
        9u8,
        Conf { high_dpi: false },
        640,
        960,
        2.0f64.to_bits(),
        true,
    );
    let view = launch.view;
    assert_eq!(view.color_format, ColorFormat::Rgba8888);
    assert_eq!(view.depth_format, DepthFormat::Format24);
    assert_eq!(view.stencil_format, StencilFormat::FormatNone);
    assert!(!view.enable_set_needs_display);
    assert!(view.user_interaction);
    assert!(view.multiple_touch);
    assert_eq!(f64::from_bits(view.content_scale), 2.0);
    assert_eq!(view.frames_per_second, 60);
    assert_eq!(PREFERRED_FRAMES_PER_SECOND, 60);
}

#[test]
fn launch_then_first_draw_hands_out_the_factory() {
    let mut slot: StartupSlot<u8> = StartupSlot::new();
    slot.store(77, Conf { high_dpi: false });
    let (f, conf) = slot.take();
    let launch: Launch<u32, u32, u8> =
        did_finish_launching_with_options(f, conf, 10, 20, 1.0f64.to_bits(), true);
    let mut payload = launch.payload;
    assert_eq!(payload.begin_draw(), Some(77));
    payload.install(1, 2);
    assert_eq!(payload.begin_draw(), None);
    assert_eq!(payload.draw_in_rect(10, 20).len(), 2);
}

#[test]
fn high_dpi_doubles_the_scale() {
    assert_eq!(Conf { high_dpi: true }.scale_multiplier(), 2);
    assert_eq!(Conf { high_dpi: false }.scale_multiplier(), 1);
}

#[test]
fn launch_always_reports_success() {
    let with_preferred: Launch<u8, u8, u8> =
        did_finish_launching_with_options(1, Conf { high_dpi: true }, 0, 0, 0, true);
    let with_fallback: Launch<u8, u8, u8> =
        did_finish_launching_with_options(1, Conf { high_dpi: false }, -1, -1, 0, false);
    assert!(with_preferred.succeeded);
    assert!(with_fallback.succeeded);
    assert_eq!(with_fallback.payload.display.screen_size(), (-1, -1));
}
