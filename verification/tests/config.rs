use fate::config::{Config, EnvironmentConfig, MsaaSamples, Resolution, SKYBOX_DEFAULT_RESOLUTION};

#[test]
fn resolution_default_is_full_hd() {
    let r = Resolution::default();
    assert_eq!(r.width(), 1920);
    assert_eq!(r.height(), 1080);
}

#[test]
fn environment_default_uses_skybox_and_default_resolution() {
    let e = EnvironmentConfig::default();
    assert_eq!(e.path(), "assets/skybox/skybox.hdr");
    assert_eq!(e.resolution(), 2048);
    assert_eq!(SKYBOX_DEFAULT_RESOLUTION, 2048);
}

#[test]
fn config_default_values() {
    let c = Config::default();
    assert_eq!(c.resolution().width(), 1920);
    assert_eq!(c.resolution().height(), 1080);
    assert!(!c.fullscreen());
    assert!(!c.vsync());
    assert_eq!(c.msaa(), MsaaSamples::S1);
    assert_eq!(c.env().path(), "assets/skybox/skybox.hdr");
    assert_eq!(c.env().resolution(), 2048);
}
