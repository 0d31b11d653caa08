use vizia_platform::application::ApplicationError;
use vizia_platform::d3d::{
    after_description, after_refusal, create_swap_chain, get_hardware_adapter_and_device,
    get_present_args, AdapterAction, AdapterInfo, Creation, SimulatedSwapChain, WinState,
    ADAPTER_FLAG_SOFTWARE, BUFFER_COUNT, FRAME_LATENCY_TIMEOUT_MS, PRESENT_ALLOW_TEARING,
    SWAP_CHAIN_FLAG_ALLOW_TEARING, SWAP_CHAIN_FLAG_FRAME_LATENCY_WAITABLE_OBJECT,
};
use vizia_platform::scale::PhysicalSize;
use vizia_platform::surface::{BoundingBox, Procedure, Rect, Step};
use vizia_platform::units::Fixed;

fn size(width: u32, height: u32) -> PhysicalSize {
    PhysicalSize { width, height }
}

fn fixed(value: f64) -> Fixed {
    Fixed::from_raw((value * 1e6).round() as i64)
}

fn region(x: f64, y: f64, w: f64, h: f64) -> BoundingBox {
    BoundingBox { x: fixed(x), y: fixed(y), w: fixed(w), h: fixed(h) }
}

fn adapter(flags: u32, accepts_device: bool) -> AdapterInfo {
    AdapterInfo { flags, accepts_device }
}

fn surfaces(width: u32, height: u32) -> Vec<Step> {
    vec![
        Step::DropSurfaces,
        Step::WrapBackBuffer { index: 0, width, height },
        Step::WrapBackBuffer { index: 1, width, height },
    ]
}

fn window(
    inner_size: PhysicalSize,
    monitor: Option<PhysicalSize>,
    vsync: bool,
    tearing_supported: bool,
) -> (WinState, Procedure) {
    let creation = Creation { entity: 7, inner_size, monitor, vsync, tearing_supported };
    WinState::new(Some(0), creation).unwrap()
}

/// Runs a procedure on the swap chain to its end and says whether every
/// step was accepted.
fn run_on(chain: &mut SimulatedSwapChain, procedure: &mut Procedure) -> bool {
    let mut succeeded = true;
    while let Some(step) = procedure.advance(succeeded) {
        succeeded = chain.perform(step);
    }
    procedure.succeeded()
}

/// A swap chain that refuses to resize its buffers, whatever refers to them.
struct Stubborn(SimulatedSwapChain);

impl Stubborn {
    fn run(&mut self, procedure: &mut Procedure) -> bool {
        let mut succeeded = true;
        while let Some(step) = procedure.advance(succeeded) {
            succeeded = match step {
                Step::ResizeBuffers { .. } => false,
                other => self.0.perform(other),
            };
        }
        procedure.succeeded()
    }
}

fn fail_at(procedure: &mut Procedure, failing: usize) {
    let mut handed_out = 0;
    let mut succeeded = true;
    while procedure.advance(succeeded).is_some() {
        succeeded = handed_out != failing;
        handed_out += 1;
    }
}

#[test]
fn the_constants_are_those_of_the_platform() {
    assert_eq!(BUFFER_COUNT, 2);
    assert_eq!(FRAME_LATENCY_TIMEOUT_MS, 1000);
    assert_eq!(ADAPTER_FLAG_SOFTWARE, 2);
    assert_eq!(PRESENT_ALLOW_TEARING, 0x200);
    assert_eq!(SWAP_CHAIN_FLAG_ALLOW_TEARING, 2048);
    assert_eq!(SWAP_CHAIN_FLAG_FRAME_LATENCY_WAITABLE_OBJECT, 64);
}

#[test]
fn software_adapters_are_passed_over() {
    assert_eq!(after_description(0, 0), AdapterAction::CreateDevice(0));
    assert_eq!(after_description(3, 1), AdapterAction::CreateDevice(3));
    assert_eq!(after_description(3, 2), AdapterAction::Enumerate(4));
    assert_eq!(after_description(3, 3), AdapterAction::Enumerate(4));
    assert_eq!(after_description(u32::MAX, 2), AdapterAction::Fail);
    assert_eq!(after_description(u32::MAX, 0), AdapterAction::CreateDevice(u32::MAX));
}

#[test]
fn a_refusal_leads_to_the_next_adapter() {
    assert_eq!(after_refusal(0), AdapterAction::Enumerate(1));
    assert_eq!(after_refusal(u32::MAX - 1), AdapterAction::Enumerate(u32::MAX));
    assert_eq!(after_refusal(u32::MAX), AdapterAction::Fail);
}

#[test]
fn the_first_hardware_adapter_that_accepts_a_device_is_taken() {
    let adapters = vec![adapter(2, true), adapter(0, false), adapter(0, true), adapter(0, true)];
    assert_eq!(get_hardware_adapter_and_device(&adapters), Ok(2));
    assert_eq!(get_hardware_adapter_and_device(&vec![adapter(0, true)]), Ok(0));
    assert_eq!(get_hardware_adapter_and_device(&vec![adapter(4, true)]), Ok(0));
}

#[test]
fn no_suitable_adapter_is_a_failure_to_get_a_device() {
    assert_eq!(get_hardware_adapter_and_device(&vec![]), Err(ApplicationError::DeviceAcquisition));
    assert_eq!(
        get_hardware_adapter_and_device(&vec![adapter(2, true), adapter(0, false)]),
        Err(ApplicationError::DeviceAcquisition)
    );
    assert_eq!(
        get_hardware_adapter_and_device(&vec![adapter(3, true)]),
        Err(ApplicationError::DeviceAcquisition)
    );
}

#[test]
fn present_args_follow_vsync_and_tearing() {
    assert_eq!(get_present_args(true, false), (1, 0));
    assert_eq!(get_present_args(true, true), (1, 0));
    assert_eq!(get_present_args(false, false), (0, 0));
    assert_eq!(get_present_args(false, true), (0, 0x200));
}

#[test]
fn the_swap_chain_is_created_waited_for_and_presented() {
    assert_eq!(
        create_swap_chain(size(1920, 1080), 1, 0),
        vec![
            Step::CreateSwapChain { count: 2, width: 1920, height: 1080, flags: 64 },
            Step::WaitFrameLatency { timeout_ms: 1000 },
            Step::PresentFrame { sync_interval: 1, flags: 0 },
        ]
    );
    assert_eq!(
        create_swap_chain(size(1, 2), 0, 0x200)[0],
        Step::CreateSwapChain { count: 2, width: 1, height: 2, flags: 64 | 2048 }
    );
    assert_eq!(
        create_swap_chain(size(1, 2), 0, 0x201)[0],
        Step::CreateSwapChain { count: 2, width: 1, height: 2, flags: 2112 }
    );
    assert_eq!(
        create_swap_chain(size(1, 2), 0, 0x1ff)[0],
        Step::CreateSwapChain { count: 2, width: 1, height: 2, flags: 64 }
    );
}

#[test]
fn a_window_is_set_up_with_buffers_of_the_monitor() {
    let (state, procedure) = window(size(800, 600), Some(size(1920, 1080)), true, false);
    assert_eq!(
        state,
        WinState {
            entity: 7,
            adapter: 0,
            is_initially_cloaked: true,
            is_moving_or_resizing: false,
            surfaces_alive: true,
            sync_interval: 1,
            present_flags: 0,
            inner_size: size(800, 600),
            buffer_size: size(1920, 1080),
        }
    );
    let mut expected = vec![
        Step::CreateCommandQueue,
        Step::CreateSwapChain { count: 2, width: 1920, height: 1080, flags: 64 },
        Step::WaitFrameLatency { timeout_ms: 1000 },
        Step::PresentFrame { sync_interval: 1, flags: 0 },
        Step::CreateDirectContext,
    ];
    expected.extend(surfaces(800, 600));
    assert_eq!(procedure.steps(), &expected);
}

#[test]
fn without_a_device_no_window_is_made() {
    let creation = Creation {
        entity: 7,
        inner_size: size(800, 600),
        monitor: None,
        vsync: true,
        tearing_supported: false,
    };
    assert_eq!(WinState::new(None, creation).err(), Some(ApplicationError::DeviceAcquisition));
    let search = get_hardware_adapter_and_device(&vec![adapter(2, true), adapter(0, false)]);
    assert_eq!(
        WinState::new(search.ok(), creation).err(),
        Some(ApplicationError::DeviceAcquisition)
    );
    let search = get_hardware_adapter_and_device(&vec![adapter(2, true), adapter(0, true)]);
    let (state, _) = WinState::new(search.ok(), creation).unwrap();
    assert_eq!(state.adapter, 1);
    assert_eq!(state.entity, 7);
}

#[test]
fn a_window_on_no_monitor_gets_buffers_of_its_own_size() {
    let (state, procedure) = window(size(800, 600), None, false, true);
    assert_eq!(state.buffer_size, size(800, 600));
    assert_eq!((state.sync_interval, state.present_flags), (0, 0x200));
    assert_eq!(
        procedure.steps()[1],
        Step::CreateSwapChain { count: 2, width: 800, height: 600, flags: 2112 }
    );
    assert_eq!(procedure.steps()[3], Step::PresentFrame { sync_interval: 0, flags: 0x200 });
}

#[test]
fn the_buffers_have_the_size_of_the_monitor_even_where_the_window_is_larger() {
    let (state, setup) = window(size(200, 50), Some(size(100, 100)), true, false);
    assert_eq!(state.buffer_size, size(100, 100));
    assert_eq!(
        setup.steps()[1],
        Step::CreateSwapChain { count: 2, width: 100, height: 100, flags: 64 }
    );
    let (state, _) = window(size(300, 100), Some(size(200, 200)), true, false);
    assert_eq!(state.buffer_size, size(200, 200));
}

#[test]
fn a_resize_beyond_the_monitor_resizes_the_buffers_to_the_monitor_and_fails() {
    let (mut state, setup) = window(size(100, 100), Some(size(100, 100)), true, false);
    let mut chain = SimulatedSwapChain::new(100, 100);
    assert!(chain.rehearse(setup.steps()));
    let before = state;
    let mut procedure = state.resize(size(200, 50), Some(size(100, 100))).unwrap();
    assert_eq!(procedure.steps()[3], Step::ResizeBuffers { count: 2, width: 100, height: 100 });
    assert!(!run_on(&mut chain, &mut procedure));
    assert_eq!(procedure.error(), Some(ApplicationError::SurfaceCreation));
    assert!(!state.conclude_resize(&procedure, size(200, 50), Some(size(100, 100))));
    assert_eq!(state, before);
    let mut procedure = state.resize(size(300, 300), Some(size(200, 200))).unwrap();
    assert_eq!(procedure.steps()[3], Step::ResizeBuffers { count: 2, width: 200, height: 200 });
    assert!(!run_on(&mut chain, &mut procedure));
    assert_eq!((chain.width, chain.height, chain.surfaces), (200, 200, 0));
    assert!(!state.conclude_resize(&procedure, size(300, 300), Some(size(200, 200))));
    assert_eq!(state, before);
    let mut procedure = state.resize(size(150, 150), Some(size(200, 200))).unwrap();
    assert!(run_on(&mut chain, &mut procedure));
    assert!(state.conclude_resize(&procedure, size(150, 150), Some(size(200, 200))));
    assert_eq!(state.buffer_size, size(200, 200));
    assert_eq!((chain.width, chain.height, chain.surfaces), (200, 200, 2));
}

#[test]
fn a_window_without_area_gets_no_surfaces() {
    let (state, procedure) = window(size(800, 0), Some(size(1920, 1080)), true, false);
    assert!(!state.surfaces_alive);
    assert_eq!(procedure.steps().last(), Some(&Step::DropSurfaces));
    assert_eq!(procedure.steps().len(), 6);
    assert_eq!(state.surfaces_mut(0), None);
    assert!(state.swap_buffers(region(0.0, 0.0, 5.0, 5.0), None, 0).is_none());
}

#[test]
fn swap_chain_resize_to_nothing_changes_nothing() {
    let (state, _) = window(size(800, 600), Some(size(1920, 1080)), true, false);
    let before = state;
    assert!(state.resize(size(0, 600), None).is_none());
    assert!(state.resize(size(800, 0), Some(size(10, 10))).is_none());
    assert_eq!(state, before);
}

#[test]
fn swap_chain_resize_to_the_same_size_changes_nothing() {
    let (mut state, _) = window(size(800, 600), Some(size(1920, 1080)), true, false);
    let before = state;
    assert!(state.resize(size(800, 600), Some(size(3840, 2160))).is_none());
    assert_eq!(state, before);
    let mut procedure = state.resize(size(801, 600), None).unwrap();
    fail_at(&mut procedure, 100);
    assert!(state.conclude_resize(&procedure, size(801, 600), None));
    assert!(state.resize(size(801, 600), None).is_none());
}

#[test]
fn planning_a_resize_changes_nothing() {
    let (state, _) = window(size(800, 600), Some(size(1920, 1080)), true, false);
    let before = state;
    assert!(state.resize(size(2560, 1440), Some(size(3840, 2160))).is_some());
    assert_eq!(state, before);
}

#[test]
fn resize_within_the_buffers_rebuilds_the_surfaces_alone() {
    let (mut state, _) = window(size(800, 600), Some(size(1920, 1080)), true, false);
    let mut procedure = state.resize(size(1920, 1080), Some(size(3840, 2160))).unwrap();
    assert_eq!(procedure.steps(), &surfaces(1920, 1080));
    fail_at(&mut procedure, 100);
    assert!(state.conclude_resize(&procedure, size(1920, 1080), Some(size(3840, 2160))));
    assert_eq!(state.inner_size, size(1920, 1080));
    assert_eq!(state.buffer_size, size(1920, 1080));
}

#[test]
fn resize_beyond_the_buffers_releases_before_it_resizes_them() {
    let (mut state, _) = window(size(800, 600), Some(size(1920, 1080)), true, false);
    let mut procedure = state.resize(size(1921, 1080), Some(size(3840, 2160))).unwrap();
    let mut expected = vec![
        Step::ReleaseResources,
        Step::ResetContext,
        Step::DropSurfaces,
        Step::ResizeBuffers { count: 2, width: 3840, height: 2160 },
    ];
    expected.extend(surfaces(1921, 1080));
    assert_eq!(procedure.steps(), &expected);
    fail_at(&mut procedure, 100);
    assert!(state.conclude_resize(&procedure, size(1921, 1080), Some(size(3840, 2160))));
    assert_eq!(state.inner_size, size(1921, 1080));
    assert_eq!(state.buffer_size, size(3840, 2160));
    let procedure = state.resize(size(100, 2161), None).unwrap();
    assert_eq!(procedure.steps()[3], Step::ResizeBuffers { count: 2, width: 100, height: 2161 });
}

#[test]
fn a_resize_is_stored_only_once_it_has_succeeded() {
    let (mut state, _) = window(size(800, 600), None, true, false);
    let before = state;
    let mut procedure = state.resize(size(900, 600), None).unwrap();
    assert!(!state.conclude_resize(&procedure, size(900, 600), None));
    assert_eq!(state, before);
    procedure.advance(true);
    assert!(!state.conclude_resize(&procedure, size(900, 600), None));
    assert_eq!(state, before);
    fail_at(&mut procedure, 100);
    assert!(!state.conclude_resize(&procedure, size(901, 600), None));
    assert!(!state.conclude_resize(&procedure, size(900, 600), Some(size(1000, 1000))));
    assert!(!state.conclude_resize(&procedure, size(0, 600), None));
    assert_eq!(state, before);
    assert!(state.conclude_resize(&procedure, size(900, 600), None));
    assert_eq!(state.inner_size, size(900, 600));
    assert_eq!(state.buffer_size, size(900, 600));
    assert!(state.surfaces_alive);
}

#[test]
fn the_release_counter_advances_before_the_buffers_are_resized() {
    let (state, setup) = window(size(800, 600), Some(size(1920, 1080)), true, false);
    let mut chain = SimulatedSwapChain::new(1920, 1080);
    assert!(chain.rehearse(setup.steps()));
    assert_eq!(chain.surfaces, 2);
    let procedure = state.resize(size(2560, 1440), Some(size(3840, 2160))).unwrap();
    let releases_before = chain.releases;
    let mut resized = false;
    for step in procedure.steps() {
        if let Step::ResizeBuffers { .. } = step {
            assert!(chain.releases > releases_before);
            assert_eq!(chain.releases, releases_before + 3);
            assert_eq!(chain.surfaces, 0);
            assert!(!chain.resources_held);
            assert!(!chain.context_dirty);
            resized = true;
        }
        assert!(chain.perform(*step));
    }
    assert!(resized);
    assert_eq!((chain.width, chain.height), (3840, 2160));
    assert_eq!(chain.surfaces, 2);
}

#[test]
fn a_resize_before_the_release_is_refused() {
    let (state, setup) = window(size(800, 600), Some(size(1920, 1080)), true, false);
    let procedure = state.resize(size(2560, 1440), Some(size(3840, 2160))).unwrap();
    let plan = procedure.steps().clone();
    for released in 0..3 {
        let mut reordered = plan.clone();
        reordered.swap(released, 3);
        let mut chain = SimulatedSwapChain::new(1920, 1080);
        assert!(chain.rehearse(setup.steps()));
        let before = chain;
        assert!(!chain.rehearse(&reordered));
        assert_eq!((chain.width, chain.height), (before.width, before.height));
    }
    let mut chain = SimulatedSwapChain::new(1920, 1080);
    assert!(chain.rehearse(setup.steps()));
    assert!(!chain.perform(Step::ResizeBuffers { count: 2, width: 3840, height: 2160 }));
    assert!(chain.rehearse(&plan));
}

#[test]
fn a_surface_must_fit_on_its_buffer() {
    let mut chain = SimulatedSwapChain::new(100, 100);
    assert!(chain.perform(Step::WrapBackBuffer { index: 1, width: 100, height: 100 }));
    assert!(!chain.perform(Step::WrapBackBuffer { index: 0, width: 101, height: 100 }));
    assert!(!chain.perform(Step::WrapBackBuffer { index: 2, width: 10, height: 10 }));
    assert!(!chain.perform(Step::WrapBackBuffer { index: 0, width: 0, height: 10 }));
    assert_eq!(chain.surfaces, 1);
    assert!(!chain.perform(Step::ResizeBuffers { count: 2, width: 200, height: 200 }));
    assert!(chain.perform(Step::DropSurfaces));
    assert!(!chain.perform(Step::ResizeBuffers { count: 2, width: 200, height: 200 }));
    assert!(chain.perform(Step::ReleaseResources));
    assert!(!chain.perform(Step::ResizeBuffers { count: 2, width: 200, height: 200 }));
    assert!(chain.perform(Step::ResetContext));
    assert!(!chain.perform(Step::ResizeBuffers { count: 3, width: 200, height: 200 }));
    assert!(chain.perform(Step::ResizeBuffers { count: 2, width: 200, height: 200 }));
    assert_eq!(chain.releases, 3);
    assert!(chain.perform(Step::Flush));
}

#[test]
fn a_refused_step_stops_the_rehearsal_where_it_stands() {
    let mut chain = SimulatedSwapChain::new(100, 100);
    let plan = vec![
        Step::WrapBackBuffer { index: 0, width: 50, height: 50 },
        Step::ResizeBuffers { count: 2, width: 200, height: 200 },
        Step::WrapBackBuffer { index: 1, width: 50, height: 50 },
    ];
    assert!(!chain.rehearse(&plan));
    assert_eq!((chain.surfaces, chain.width, chain.height), (1, 100, 100));
}

#[test]
fn the_surface_to_draw_into_follows_the_back_buffer() {
    let (state, _) = window(size(800, 600), None, true, false);
    assert_eq!(state.surfaces_mut(0), Some((0, 1)));
    assert_eq!(state.surfaces_mut(1), Some((1, 0)));
}

#[test]
fn surfaces_are_rebuilt_for_the_size_of_the_window() {
    let (mut state, _) = window(size(800, 600), None, true, false);
    state.surfaces_alive = false;
    let procedure = state.create_surfaces();
    assert_eq!(procedure.steps(), &surfaces(800, 600));
    assert!(state.surfaces_alive);
}

#[test]
fn a_failed_resize_leaves_the_state_as_it_was_and_is_planned_again_in_full() {
    let (mut state, setup) = window(size(800, 600), None, true, false);
    let mut chain = Stubborn(SimulatedSwapChain::new(800, 600));
    assert!(chain.0.rehearse(setup.steps()));
    let before = state;
    let first = state.resize(size(900, 600), None).unwrap();
    let plan = first.steps().clone();
    assert_eq!(plan[3], Step::ResizeBuffers { count: 2, width: 900, height: 600 });
    let mut procedure = first;
    assert!(!chain.run(&mut procedure));
    assert_eq!(procedure.error(), Some(ApplicationError::SurfaceCreation));
    assert!(!state.conclude_resize(&procedure, size(900, 600), None));
    assert_eq!(state, before);
    assert_eq!(state.buffer_size, size(800, 600));
    assert_eq!((chain.0.width, chain.0.height), (800, 600));
    // The surfaces that the state holds are built again on the old buffers.
    let mut restore = state.create_surfaces();
    assert!(run_on(&mut chain.0, &mut restore));
    state.conclude(&restore);
    assert_eq!(state, before);
    assert_eq!(chain.0.surfaces, 2);
    // The retry plans the resize of the buffers again, and goes through on a
    // swap chain that accepts it.
    let mut retry = state.resize(size(900, 600), None).unwrap();
    assert_eq!(retry.steps(), &plan);
    assert!(run_on(&mut chain.0, &mut retry));
    assert!(state.conclude_resize(&retry, size(900, 600), None));
    assert_eq!(state.inner_size, size(900, 600));
    assert_eq!(state.buffer_size, size(900, 600));
    assert_eq!((chain.0.width, chain.0.height, chain.0.surfaces), (900, 600, 2));
}

#[test]
fn a_failure_to_build_the_surfaces_leaves_none() {
    let (mut state, _) = window(size(800, 600), None, true, false);
    let mut procedure = state.create_surfaces();
    fail_at(&mut procedure, 1);
    state.conclude(&procedure);
    assert!(!state.surfaces_alive);
    assert_eq!(state.surfaces_mut(0), None);
    assert!(state.resize(size(800, 600), None).is_some());
}

#[test]
fn the_changed_region_is_presented_after_a_bounded_wait() {
    let (state, _) = window(size(800, 600), None, false, true);
    let procedure = state.swap_buffers(region(-3.5, 2.9, 10.2, 5.0), Some(false), 1).unwrap();
    assert_eq!(
        procedure.steps(),
        &vec![
            Step::WaitFrameLatency { timeout_ms: 1000 },
            Step::FlushSurface { index: 1 },
            Step::PresentRegion {
                sync_interval: 0,
                flags: 0x200,
                dirty: Rect { left: 0, top: 2, right: 6, bottom: 7 },
            },
        ]
    );
    assert!(state.swap_buffers(region(0.0, 0.0, 1.0, 1.0), None, 0).is_some());
}

#[test]
fn nothing_is_presented_of_an_empty_region_or_a_minimized_window() {
    let (state, _) = window(size(800, 600), None, true, false);
    assert!(state.swap_buffers(region(0.0, 0.0, 0.0, 5.0), None, 0).is_none());
    assert!(state.swap_buffers(region(0.0, 0.0, 5.0, -5.0), None, 0).is_none());
    assert!(state.swap_buffers(region(0.0, 0.0, 5.0, 5.0), Some(true), 0).is_none());
    assert!(state.swap_buffers(region(0.0, 0.0, 5.0, 5.0), None, 2).is_none());
}

#[test]
fn there_is_no_context_to_make_current() {
    let (state, _) = window(size(800, 600), None, true, false);
    assert_eq!(state.make_current(), None);
}
