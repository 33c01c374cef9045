use vstd::prelude::*;

verus! {

/// Multisample anti-aliasing sample counts supported by the swapchain.
#[derive(Clone, Copy, Debug, PartialEq, Eq, Structural)]
pub enum MsaaSamples {
    S1,
    S2,
    S4,
    S8,
    S16,
    S32,
    S64,
}

/// Window resolution in pixels.
#[derive(Clone, Copy, Debug, PartialEq, Eq, Structural)]
pub struct Resolution {
    width: u32,
    height: u32,
}

impl Resolution {
    pub closed spec fn spec_width(self) -> u32 {
        self.width
    }

    pub closed spec fn spec_height(self) -> u32 {
        self.height
    }

    pub fn width(self) -> (w: u32)
        ensures
            w == self.spec_width(),
    {
        self.width
    }

    pub fn height(self) -> (h: u32)
        ensures
            h == self.spec_height(),
    {
        self.height
    }
}

impl Default for Resolution {
    fn default() -> (r: Self)
        ensures
            r.spec_width() == 1920,
            r.spec_height() == 1080,
    {
        Resolution { width: 1920, height: 1080 }
    }
}

/// Default location of the skybox image.
pub const SKYBOX_DEFAULT_PATH: &'static str = "assets/skybox/skybox.hdr";

/// Default edge length of the environment cubemap.
pub const SKYBOX_DEFAULT_RESOLUTION: u32 = 2048;

/// Where the environment map comes from and how large its cubemap is.
#[derive(Clone, Debug)]
pub struct EnvironmentConfig {
    path: String,
    resolution: Option<u32>,
}

impl EnvironmentConfig {
    pub closed spec fn spec_path(&self) -> Seq<char> {
        self.path@
    }

    pub closed spec fn spec_resolution(&self) -> Option<u32> {
        self.resolution
    }

    pub fn path(&self) -> (p: &String)
        ensures
            p@ == self.spec_path(),
    {
        &self.path
    }

    /// The configured cubemap resolution, or the default one when none is set.
    pub fn resolution(&self) -> (r: u32)
        ensures
            r == match self.spec_resolution() {
                Some(v) => v,
                None => SKYBOX_DEFAULT_RESOLUTION,
            },
    {
        match self.resolution {
            Some(v) => v,
            None => SKYBOX_DEFAULT_RESOLUTION,
        }
    }
}

impl Default for EnvironmentConfig {
    fn default() -> (c: Self)
        ensures
            c.spec_path() == SKYBOX_DEFAULT_PATH@,
            c.spec_resolution() == None::<u32>,
    {
        EnvironmentConfig { path: String::from_str(SKYBOX_DEFAULT_PATH), resolution: None }
    }
}

/// Start-up configuration of the renderer window.
#[derive(Clone, Debug)]
pub struct Config {
    resolution: Resolution,
    fullscreen: bool,
    vsync: Option<bool>,
    msaa: MsaaSamples,
    env: EnvironmentConfig,
}

impl Config {
    pub closed spec fn spec_resolution(&self) -> Resolution {
        self.resolution
    }

    pub closed spec fn spec_fullscreen(&self) -> bool {
        self.fullscreen
    }

    pub closed spec fn spec_vsync(&self) -> Option<bool> {
        self.vsync
    }

    pub closed spec fn spec_msaa(&self) -> MsaaSamples {
        self.msaa
    }

    pub closed spec fn spec_env(&self) -> EnvironmentConfig {
        self.env
    }

    pub fn resolution(&self) -> (r: Resolution)
        ensures
            r == self.spec_resolution(),
    {
        self.resolution
    }

    pub fn fullscreen(&self) -> (f: bool)
        ensures
            f == self.spec_fullscreen(),
    {
        self.fullscreen
    }

    /// Whether vertical sync is on; an unset value means off.
    pub fn vsync(&self) -> (v: bool)
        ensures
            v == (self.spec_vsync() == Some(true)),
    {
        match self.vsync {
            Some(v) => v,
            None => false,
        }
    }

    pub fn msaa(&self) -> (m: MsaaSamples)
        ensures
            m == self.spec_msaa(),
    {
        self.msaa
    }

    pub fn env(&self) -> (e: &EnvironmentConfig)
        ensures
            *e == self.spec_env(),
    {
        &self.env
    }
}

impl Default for Config {
    fn default() -> (c: Self)
        ensures
            c.spec_resolution().spec_width() == 1920,
            c.spec_resolution().spec_height() == 1080,
            !c.spec_fullscreen(),
            c.spec_vsync() == Some(false),
            c.spec_msaa() == MsaaSamples::S1,
            c.spec_env().spec_path() == SKYBOX_DEFAULT_PATH@,
            c.spec_env().spec_resolution() == None::<u32>,
    {
        Config {
            resolution: Resolution::default(),
            fullscreen: false,
            vsync: Some(false),
            msaa: MsaaSamples::S1,
            env: EnvironmentConfig::default(),
        }
    }
}

} // verus!
