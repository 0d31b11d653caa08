use vizia_platform::application::ApplicationError;
use vizia_platform::backend::{select_backend, Backend, SurfaceManager, SurfaceRequest};
use vizia_platform::scale::PhysicalSize;
use vizia_platform::surface::{BoundingBox, Procedure, Step};
use vizia_platform::units::Fixed;

fn size(width: u32, height: u32) -> PhysicalSize {
    PhysicalSize { width, height }
}

fn request(width: u32, height: u32) -> SurfaceRequest {
    SurfaceRequest {
        entity: 1,
        adapter: Some(0),
        size: size(width, height),
        monitor: Some(size(1920, 1080)),
        vsync: true,
        tearing_supported: false,
    }
}

fn region(w: i32, h: i32) -> BoundingBox {
    BoundingBox { x: Fixed::from_int(0), y: Fixed::from_int(0), w: Fixed::from_int(w), h: Fixed::from_int(h) }
}

fn finish(procedure: &mut Procedure) {
    let mut succeeded = true;
    while procedure.advance(succeeded).is_some() {
        succeeded = true;
    }
}

fn stored(manager: &SurfaceManager) -> Option<PhysicalSize> {
    match manager {
        SurfaceManager::OpenGl(state) => state.stored,
        SurfaceManager::Direct3D12(state) => {
            if state.surfaces_alive {
                Some(state.inner_size)
            } else {
                None
            }
        }
    }
}

#[test]
fn exactly_one_backend_must_be_enabled() {
    assert_eq!(select_backend(true, false, false), Ok(Backend::OpenGl));
    assert_eq!(select_backend(false, true, false), Ok(Backend::Direct3D12));
    assert_eq!(select_backend(false, false, true), Ok(Backend::Vulkan));
    assert_eq!(select_backend(false, false, false), Err(ApplicationError::Configuration));
    assert_eq!(select_backend(true, true, false), Err(ApplicationError::Configuration));
    assert_eq!(select_backend(true, false, true), Err(ApplicationError::Configuration));
    assert_eq!(select_backend(false, true, true), Err(ApplicationError::Configuration));
    assert_eq!(select_backend(true, true, true), Err(ApplicationError::Configuration));
}

#[test]
fn a_backend_without_implementation_refuses_to_create_surfaces() {
    let refused = SurfaceManager::create(Backend::Vulkan, request(800, 600));
    assert_eq!(refused.err(), Some(ApplicationError::SurfaceCreation));
}

#[test]
fn surfaces_are_created_by_the_selected_backend() {
    let (manager, procedure) = SurfaceManager::create(Backend::OpenGl, request(800, 600)).unwrap();
    assert!(matches!(manager, SurfaceManager::OpenGl(_)));
    assert_eq!(stored(&manager), Some(size(800, 600)));
    assert_eq!(procedure.steps()[0], Step::CreateContext);
    let (manager, procedure) =
        SurfaceManager::create(Backend::Direct3D12, request(800, 600)).unwrap();
    assert!(matches!(manager, SurfaceManager::Direct3D12(_)));
    assert_eq!(stored(&manager), Some(size(800, 600)));
    assert_eq!(procedure.steps()[0], Step::CreateCommandQueue);
    let (manager, _) = SurfaceManager::create(Backend::Direct3D12, request(0, 600)).unwrap();
    assert_eq!(stored(&manager), None);
}

#[test]
fn resize_to_zero_width_or_height_returns_false_and_changes_nothing() {
    for backend in [Backend::OpenGl, Backend::Direct3D12] {
        let (manager, _) = SurfaceManager::create(backend, request(800, 600)).unwrap();
        assert!(manager.resize(size(0, 600), None).is_none());
        assert_eq!(stored(&manager), Some(size(800, 600)));
        assert!(manager.resize(size(800, 0), None).is_none());
        assert_eq!(stored(&manager), Some(size(800, 600)));
        assert_eq!(manager.acquire_current(0), Some((0, 1)));
    }
}

#[test]
fn resize_to_the_stored_size_returns_false() {
    for backend in [Backend::OpenGl, Backend::Direct3D12] {
        let (mut manager, _) = SurfaceManager::create(backend, request(800, 600)).unwrap();
        assert!(manager.resize(size(800, 600), None).is_none());
        let mut procedure = manager.resize(size(1024, 768), None).unwrap();
        assert_eq!(stored(&manager), Some(size(800, 600)));
        finish(&mut procedure);
        assert!(manager.conclude_resize(&procedure, size(1024, 768), None));
        assert_eq!(stored(&manager), Some(size(1024, 768)));
        assert!(manager.resize(size(1024, 768), None).is_none());
    }
}

#[test]
fn without_a_device_the_swap_chain_backend_creates_nothing() {
    let mut without = request(800, 600);
    without.adapter = None;
    assert_eq!(
        SurfaceManager::create(Backend::Direct3D12, without).err(),
        Some(ApplicationError::DeviceAcquisition)
    );
    assert!(SurfaceManager::create(Backend::OpenGl, without).is_ok());
}

#[test]
fn the_current_surface_is_acquired_where_there_is_one() {
    let (manager, _) = SurfaceManager::create(Backend::OpenGl, request(800, 600)).unwrap();
    assert_eq!(manager.acquire_current(1), Some((0, 1)));
    let (manager, _) = SurfaceManager::create(Backend::Direct3D12, request(800, 600)).unwrap();
    assert_eq!(manager.acquire_current(1), Some((1, 0)));
    let (manager, _) = SurfaceManager::create(Backend::OpenGl, request(0, 0)).unwrap();
    assert_eq!(manager.acquire_current(0), None);
}

#[test]
fn a_degenerate_region_is_not_presented() {
    for backend in [Backend::OpenGl, Backend::Direct3D12] {
        let (manager, _) = SurfaceManager::create(backend, request(800, 600)).unwrap();
        assert!(manager.present(region(0, 10), None, 0).is_none());
        assert!(manager.present(region(10, 0), None, 0).is_none());
        assert!(manager.present(region(-1, -1), None, 0).is_none());
        assert!(manager.present(region(10, 10), None, 0).is_some());
    }
}

#[test]
fn a_refused_resize_leaves_size_and_surfaces_as_they_were() {
    for backend in [Backend::OpenGl, Backend::Direct3D12] {
        let (mut manager, _) = SurfaceManager::create(backend, request(800, 600)).unwrap();
        let mut procedure = manager.resize(size(2000, 1500), Some(size(1920, 1080))).unwrap();
        let plan = procedure.steps().clone();
        procedure.advance(true);
        procedure.advance(false);
        while procedure.advance(true).is_some() {}
        assert_eq!(procedure.error(), Some(ApplicationError::SurfaceCreation));
        assert!(!manager.conclude_resize(&procedure, size(2000, 1500), Some(size(1920, 1080))));
        assert_eq!(stored(&manager), Some(size(800, 600)));
        assert_eq!(manager.acquire_current(0), Some((0, 1)));
        assert!(manager.present(region(10, 10), None, 0).is_some());
        let retry = manager.resize(size(2000, 1500), Some(size(1920, 1080))).unwrap();
        assert_eq!(retry.steps(), &plan);
    }
}

#[test]
fn dropped_surfaces_are_built_again_after_a_refused_resize() {
    let (mut manager, _) = SurfaceManager::create(Backend::OpenGl, request(800, 600)).unwrap();
    assert!(manager.restore().is_none());
    let (mut manager, _) = SurfaceManager::create(Backend::Direct3D12, request(800, 600)).unwrap();
    let mut restore = manager.restore().unwrap();
    assert_eq!(
        restore.steps(),
        &vec![
            Step::DropSurfaces,
            Step::WrapBackBuffer { index: 0, width: 800, height: 600 },
            Step::WrapBackBuffer { index: 1, width: 800, height: 600 },
        ]
    );
    finish(&mut restore);
    manager.conclude(&restore);
    assert_eq!(stored(&manager), Some(size(800, 600)));
    let mut restore = manager.restore().unwrap();
    restore.advance(true);
    restore.advance(true);
    restore.advance(false);
    manager.conclude(&restore);
    assert_eq!(stored(&manager), None);
    assert!(manager.restore().is_none());
    assert!(manager.resize(size(800, 600), None).is_some());
}

#[test]
fn the_context_is_bound_where_the_backend_has_one() {
    let (manager, _) = SurfaceManager::create(Backend::OpenGl, request(800, 600)).unwrap();
    assert_eq!(manager.bind_context(), Some(Step::MakeCurrent));
    assert_eq!(manager.release_context(), Some(Step::MakeNotCurrent));
    let (manager, _) = SurfaceManager::create(Backend::Direct3D12, request(800, 600)).unwrap();
    assert_eq!(manager.bind_context(), None);
    assert_eq!(manager.release_context(), None);
}
