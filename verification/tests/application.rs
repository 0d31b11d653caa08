use vizia_platform::application::{
    Application, ApplicationRunner, Phase, WindowDescription, WindowScalePolicy, DEFAULT_HEIGHT,
    DEFAULT_WIDTH,
};
use vizia_platform::command::UiSnapshot;
use vizia_platform::input::Modifiers;
use vizia_platform::scale::{PhysicalSize, WindowSize};
use vizia_platform::units::ScaleFactor;

fn factor(millionths: u32) -> ScaleFactor {
    ScaleFactor::new(millionths).unwrap()
}

#[test]
fn a_new_application_has_a_default_window() {
    let application = Application::new();
    assert_eq!(application.window_description.title, "");
    assert_eq!(application.window_description.inner_size, WindowSize { width: 800, height: 600 });
    assert_eq!((DEFAULT_WIDTH, DEFAULT_HEIGHT), (800, 600));
    assert_eq!(application.window_description.user_scale_factor, ScaleFactor::identity());
    assert_eq!(application.window_scale_policy, WindowScalePolicy::SystemScaleFactor);
    assert!(!application.idle_registered);
    assert!(!application.ignore_default_theme);
    assert_eq!(WindowDescription::new().title, "");
}

#[test]
fn the_builder_sets_what_it_names() {
    let application = Application::new()
        .title("Picklist")
        .inner_size(WindowSize { width: 300, height: 200 })
        .user_scale_factor(factor(1_500_000))
        .with_scale_policy(WindowScalePolicy::ScaleFactor(factor(2_000_000)))
        .ignore_default_theme()
        .on_idle();
    assert_eq!(application.window_description.title, "Picklist");
    assert_eq!(application.window_description.inner_size, WindowSize { width: 300, height: 200 });
    assert_eq!(application.window_description.user_scale_factor, factor(1_500_000));
    assert_eq!(
        application.window_scale_policy,
        WindowScalePolicy::ScaleFactor(factor(2_000_000))
    );
    assert!(application.idle_registered);
    assert!(application.ignore_default_theme);
}

#[test]
fn each_builder_step_leaves_the_rest_alone() {
    let application = Application::new().title("a").on_idle();
    let application = application.inner_size(WindowSize { width: 1, height: 2 });
    assert_eq!(application.window_description.title, "a");
    assert!(application.idle_registered);
    assert!(!application.ignore_default_theme);
    let application = application.title("b");
    assert_eq!(application.window_description.inner_size, WindowSize { width: 1, height: 2 });
    assert_eq!(application.window_description.title, "b");
}

#[test]
fn a_new_runner_starts_between_ticks_with_a_redraw_pending() {
    let seen = UiSnapshot {
        window_size: WindowSize { width: 800, height: 600 },
        user_scale_factor: factor(1_250_000),
        redraw_requested: false,
        queued: 7,
    };
    let runner = ApplicationRunner::new(&seen, false, factor(2_000_000), true, true);
    assert_eq!(runner.phase(), Phase::Boundary);
    assert!(runner.should_redraw());
    assert!(!runner.should_terminate());
    assert_eq!(runner.modifiers(), Modifiers::empty());
    let state = runner.scale_state();
    assert_eq!(state.logical_size, WindowSize { width: 800, height: 600 });
    assert_eq!(state.os_scale_factor, factor(2_000_000));
    assert_eq!(state.user_scale_factor, factor(1_250_000));
    assert_eq!(state.physical_size, PhysicalSize { width: 2000, height: 1500 });
}

#[test]
fn the_scale_policy_says_where_the_factor_comes_from() {
    let system = WindowScalePolicy::SystemScaleFactor;
    assert!(system.uses_system_scaling());
    assert_eq!(system.window_scale_factor(), ScaleFactor::identity());
    let fixed = WindowScalePolicy::ScaleFactor(factor(1_750_000));
    assert!(!fixed.uses_system_scaling());
    assert_eq!(fixed.window_scale_factor(), factor(1_750_000));
}
