//! The persistent settings data model.
//!
//! Reading and writing the on-disk file, and the TOML round-trip, are I/O
//! and stay outside the library; the types here are what that file decodes
//! to, together with their default values and the rules that repair an
//! inconsistent file.

use vstd::prelude::*;
use vstd::string::StringExecFns;

verus! {

/// Flag bit standing for the Vulkan backend.
pub const BACKEND_VULKAN: u32 = 2;
/// Flag bit standing for the Metal backend.
pub const BACKEND_METAL: u32 = 4;
/// Flag bit standing for the DirectX 12 backend.
pub const BACKEND_DX12: u32 = 8;
/// Flag bit standing for the DirectX 11 backend.
pub const BACKEND_DX11: u32 = 16;
/// Flag bit standing for the OpenGL backend.
pub const BACKEND_GL: u32 = 32;
/// Flag bit standing for the browser WebGPU backend.
pub const BACKEND_WEBGPU: u32 = 64;

/// Everything the settings file can carry.
#[derive(Debug)]
pub struct SettingsInner {
    pub window: WindowSettings,
    pub graphics: GraphicsSettings,
}

/// How the window is opened.
#[derive(Debug)]
pub struct WindowSettings {
    pub resolution: (u32, u32),
    pub title: String,
    pub force_wayland: bool,
    pub force_x11: bool,
}

/// How the GPU is picked and driven.
#[derive(Debug, Clone, Copy, PartialEq, Eq, Structural)]
pub struct GraphicsSettings {
    pub allowed_backends: GraphicsBackends,
    pub gpu_preference: GpuPreference,
    pub force_software_rendering: bool,
    pub vsync: bool,
}

/// Which GPU backends the program may use.
#[derive(Debug, Clone, Copy, PartialEq, Eq, Structural)]
pub struct GraphicsBackends {
    pub vulkan: bool,
    pub metal: bool,
    pub dx12: bool,
    pub webgpu: bool,

    pub gl: bool,
    pub dx11: bool,
}

/// Whether to favour speed or battery when picking an adapter.
#[derive(Debug, Clone, Copy, PartialEq, Eq, Structural)]
pub enum GpuPreference {
    HighPerformance,
    LowPower,
}

/// The default set of allowed backends: every primary backend, no
/// fallback one.
pub open spec fn default_backends() -> GraphicsBackends {
    GraphicsBackends {
        vulkan: true,
        metal: true,
        dx12: true,
        webgpu: true,
        gl: false,
        dx11: false,
    }
}

/// The default graphics settings: all primary backends, the fastest
/// adapter, no software fallback, vsync on.
pub open spec fn default_graphics() -> GraphicsSettings {
    GraphicsSettings {
        allowed_backends: default_backends(),
        gpu_preference: GpuPreference::HighPerformance,
        force_software_rendering: false,
        vsync: true,
    }
}

impl Default for WindowSettings {
    fn default() -> (r: Self)
        ensures
            r.resolution == (1280u32, 720u32),
            r.title@ == "WGPU Template"@,
            !r.force_wayland,
            !r.force_x11,
    {
        WindowSettings {
            resolution: (1280, 720),
            title: String::from_str("WGPU Template"),
            force_wayland: false,
            force_x11: false,
        }
    }
}

impl Default for GraphicsBackends {
    fn default() -> (r: Self)
        ensures
            r == default_backends(),
    {
        GraphicsBackends {
            vulkan: true,
            metal: true,
            dx12: true,
            webgpu: true,
            gl: false,
            dx11: false,
        }
    }
}

impl Default for GpuPreference {
    fn default() -> (r: Self)
        ensures
            r is HighPerformance,
    {
        GpuPreference::HighPerformance
    }
}

impl Default for GraphicsSettings {
    fn default() -> (r: Self)
        ensures
            r == default_graphics(),
    {
        GraphicsSettings {
            allowed_backends: GraphicsBackends::default(),
            gpu_preference: GpuPreference::default(),
            force_software_rendering: false,
            vsync: true,
        }
    }
}

impl Default for SettingsInner {
    fn default() -> (r: Self)
        ensures
            r.window.resolution == (1280u32, 720u32),
            r.window.title@ == "WGPU Template"@,
            !r.window.force_wayland,
            !r.window.force_x11,
            r.graphics == default_graphics(),
    {
        SettingsInner { window: WindowSettings::default(), graphics: GraphicsSettings::default() }
    }
}

impl SettingsInner {
    /// A settings file may force both window-system backends at once; that
    /// is contradictory, so the loader clears both flags and falls back to
    /// the platform default.  Everything else is kept as read.
    pub fn resolve_forced_platform(&mut self)
        ensures
            old(self).window.force_wayland && old(self).window.force_x11 ==> {
                &&& !final(self).window.force_wayland
                &&& !final(self).window.force_x11
            },
            !(old(self).window.force_wayland && old(self).window.force_x11) ==> *final(self)
                == *old(self),
            final(self).window.resolution == old(self).window.resolution,
            final(self).window.title == old(self).window.title,
            final(self).graphics == old(self).graphics,
    {
        if self.window.force_wayland && self.window.force_x11 {
            self.window.force_wayland = false;
            self.window.force_x11 = false;
        }
    }
}

impl GraphicsBackends {
    /// The flag word these choices stand for, one bit per backend.
    pub open spec fn backend_bits(self) -> int {
        (if self.vulkan {
            BACKEND_VULKAN
        } else {
            0
        }) + (if self.gl {
            BACKEND_GL
        } else {
            0
        }) + (if self.metal {
            BACKEND_METAL
        } else {
            0
        }) + (if self.dx12 {
            BACKEND_DX12
        } else {
            0
        }) + (if self.dx11 {
            BACKEND_DX11
        } else {
            0
        }) + (if self.webgpu {
            BACKEND_WEBGPU
        } else {
            0
        })
    }

    /// Encode the allowed backends as a flag word.  The caller that talks
    /// to the GPU layer turns this word into that layer's own flag type.
    pub fn to_backends(&self) -> (r: u32)
        ensures
            r == self.backend_bits(),
            r < 128,
    {
        let mut bits: u32 = 0;
        if self.vulkan {
            bits = bits + BACKEND_VULKAN;
        }
        if self.gl {
            bits = bits + BACKEND_GL;
        }
        if self.metal {
            bits = bits + BACKEND_METAL;
        }
        if self.dx12 {
            bits = bits + BACKEND_DX12;
        }
        if self.dx11 {
            bits = bits + BACKEND_DX11;
        }
        if self.webgpu {
            bits = bits + BACKEND_WEBGPU;
        }
        bits
    }
}

} // verus!
