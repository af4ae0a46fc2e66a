use gfx::{SurfaceSize, Viewport};

#[test]
fn new_viewport_configures_initial_size() {
    let vp = Viewport::new(SurfaceSize { width: 800, height: 600 });
    let config = vp.configure_surface();
    assert_eq!(config.width, 800);
    assert_eq!(config.height, 600);
    assert_eq!(config.desired_maximum_frame_latency, 2);
    assert_eq!(vp.size(), SurfaceSize { width: 800, height: 600 });
}

#[test]
fn resize_then_configure_uses_new_size() {
    let mut vp = Viewport::new(SurfaceSize { width: 800, height: 600 });
    let applied = vp.resize(SurfaceSize { width: 1024, height: 768 });
    assert_eq!((applied.width, applied.height), (1024, 768));
    let config = vp.configure_surface();
    assert_eq!((config.width, config.height), (1024, 768));
    assert_eq!(config, applied);
}

#[test]
fn resize_to_zero_is_recorded_as_is() {
    let mut vp = Viewport::new(SurfaceSize { width: 1, height: 1 });
    vp.resize(SurfaceSize { width: 0, height: 0 });
    assert_eq!(vp.size(), SurfaceSize { width: 0, height: 0 });
    assert_eq!(vp.configure_surface().width, 0);
}
