//! Preferences for acquiring a GPU device and surface: which backends are
//! acceptable, what kind of adapter to pick, and how the surface is
//! configured for presentation.

use vstd::prelude::*;
use crate::graphics::TextureFormat;

verus! {

/// A graphics backend an adapter may be exposed through.
#[derive(Clone, Copy, Debug, PartialEq, Eq, Structural)]
pub enum Backend {
    Empty,
    Vulkan,
    Metal,
    Dx12,
    Gl,
    BrowserWebGpu,
}

/// Kind of physical or virtual device an adapter exposes.
#[derive(Clone, Copy, Debug, PartialEq, Eq, Structural)]
pub enum DeviceType {
    Other,
    IntegratedGpu,
    DiscreteGpu,
    VirtualGpu,
    Cpu,
}

/// How presented frames are queued to the display.
#[derive(Clone, Copy, Debug, PartialEq, Eq, Structural)]
pub enum PresentMode {
    AutoVsync,
    AutoNoVsync,
    Fifo,
    FifoRelaxed,
    Immediate,
    Mailbox,
}

/// How the surface's alpha channel is composited with the rest of the screen.
#[derive(Clone, Copy, Debug, PartialEq, Eq, Structural)]
pub enum AlphaMode {
    Auto,
    Opaque,
    PreMultiplied,
    PostMultiplied,
    Inherit,
}

/// A named set of device limits to request, in place of hand-picked values.
#[derive(Clone, Copy, Debug, PartialEq, Eq, Structural)]
pub enum LimitsPreset {
    Defaults,
    Downlevel,
    DownlevelWebgl2,
}

/// Bit for the Vulkan backend in a backend mask.
pub const BACKENDS_VULKAN: u32 = 2;
/// Bit for the Metal backend in a backend mask.
pub const BACKENDS_METAL: u32 = 4;
/// Bit for the Direct3D 12 backend in a backend mask.
pub const BACKENDS_DX12: u32 = 8;
/// Bit for the OpenGL backend in a backend mask.
pub const BACKENDS_GL: u32 = 16;
/// Bit for the browser WebGPU backend in a backend mask.
pub const BACKENDS_BROWSER_WEBGPU: u32 = 32;
/// The backends considered first class on their platforms.
pub const BACKENDS_PRIMARY: u32 = 2 | 4 | 8 | 32;

/// Usage bit allowing a texture to be the target of a render pass.
pub const TEXTURE_USAGE_RENDER_ATTACHMENT: u32 = 16;

/// The bit a single backend occupies in a backend mask.
pub open spec fn spec_backend_bit(b: Backend) -> u32 {
    match b {
        Backend::Empty => 1u32,
        Backend::Vulkan => 2u32,
        Backend::Metal => 4u32,
        Backend::Dx12 => 8u32,
        Backend::Gl => 16u32,
        Backend::BrowserWebGpu => 32u32,
    }
}

/// The bit a single backend occupies in a backend mask.
pub fn backend_bit(b: Backend) -> (r: u32)
    ensures
        r == spec_backend_bit(b),
{
    match b {
        Backend::Empty => 1u32,
        Backend::Vulkan => 2u32,
        Backend::Metal => 4u32,
        Backend::Dx12 => 8u32,
        Backend::Gl => 16u32,
        Backend::BrowserWebGpu => 32u32,
    }
}

/// What the device-selection scan reads of an enumerated adapter: the backend
/// it is exposed through, the kind of device it is, and whether it can
/// present to the application's surface.
#[derive(Clone, Copy, Debug, PartialEq, Eq, Structural)]
pub struct AdapterInfo {
    pub backend: Backend,
    pub device_type: DeviceType,
    pub surface_supported: bool,
}

/// The negotiated presentation settings bound to a surface.
#[derive(Clone, Copy, Debug, PartialEq, Eq, Structural)]
pub struct SurfaceConfig {
    pub usage: u32,
    pub format: TextureFormat,
    pub width: u32,
    pub height: u32,
    pub present_mode: PresentMode,
    pub alpha_mode: AlphaMode,
}

/// Preferences for acquiring a device: acceptable backends (a bit mask over
/// the `BACKENDS_*` bits), the kind of adapter wanted, the present mode for
/// the surface, and the features and limits to request.
#[derive(Clone, Copy, Debug, PartialEq, Eq, Structural)]
pub struct GpuBuilder {
    pub backends: u32,
    pub device_type: DeviceType,
    pub present_mode: PresentMode,
    pub features: u64,
    pub limits: LimitsPreset,
}

impl Default for GpuBuilder {
    /// Primary backends, a discrete GPU, first-in-first-out presentation,
    /// no extra features, default limits.
    fn default() -> (r: Self)
        ensures
            r.backends == BACKENDS_PRIMARY,
            r.device_type == DeviceType::DiscreteGpu,
            r.present_mode == PresentMode::Fifo,
            r.features == 0u64,
            r.limits == LimitsPreset::Defaults,
    {
        GpuBuilder {
            backends: BACKENDS_PRIMARY,
            device_type: DeviceType::DiscreteGpu,
            present_mode: PresentMode::Fifo,
            features: 0u64,
            limits: LimitsPreset::Defaults,
        }
    }
}

impl GpuBuilder {
    /// The default preferences: primary backends, a discrete GPU,
    /// first-in-first-out presentation, no extra features, default limits.
    pub open spec fn spec_default() -> Self {
        GpuBuilder {
            backends: BACKENDS_PRIMARY,
            device_type: DeviceType::DiscreteGpu,
            present_mode: PresentMode::Fifo,
            features: 0u64,
            limits: LimitsPreset::Defaults,
        }
    }

    /// Whether an adapter satisfies these preferences: its device kind is the
    /// one asked for, its backend is in the accepted mask, and it can present
    /// to the surface.
    pub open spec fn adapter_matches(self, info: AdapterInfo) -> bool {
        &&& info.device_type == self.device_type
        &&& self.backends & spec_backend_bit(info.backend) != 0
        &&& info.surface_supported
    }

    /// A builder with the default preferences.
    pub fn new() -> (r: Self)
        ensures
            r.backends == BACKENDS_PRIMARY,
            r.device_type == DeviceType::DiscreteGpu,
            r.present_mode == PresentMode::Fifo,
            r.features == 0u64,
            r.limits == LimitsPreset::Defaults,
    {
        Self::default()
    }

    /// Accept one more backend.
    pub fn with_backend(self, b: Backend) -> (r: Self)
        ensures
            r == (GpuBuilder { backends: self.backends | spec_backend_bit(b), ..self }),
    {
        let bit = backend_bit(b);
        GpuBuilder { backends: self.backends | bit, ..self }
    }

    /// Ask for this kind of device.
    pub fn with_device(self, d: DeviceType) -> (r: Self)
        ensures
            r == (GpuBuilder { device_type: d, ..self }),
    {
        GpuBuilder { device_type: d, ..self }
    }

    /// Request these features in addition to those already requested
    /// (a bit mask, combined by bitwise or).
    pub fn with_feature(self, f: u64) -> (r: Self)
        ensures
            r == (GpuBuilder { features: self.features | f, ..self }),
    {
        GpuBuilder { features: self.features | f, ..self }
    }

    /// Request this set of device limits.
    pub fn with_limits(self, l: LimitsPreset) -> (r: Self)
        ensures
            r == (GpuBuilder { limits: l, ..self }),
    {
        GpuBuilder { limits: l, ..self }
    }

    /// Present frames with this mode.
    pub fn with_present_mode(self, p: PresentMode) -> (r: Self)
        ensures
            r == (GpuBuilder { present_mode: p, ..self }),
    {
        GpuBuilder { present_mode: p, ..self }
    }

    /// Scan the enumerated adapters in order and pick the first that matches
    /// the preferences; none matching, report that none was found.
    pub fn select_adapter(&self, adapters: &Vec<AdapterInfo>) -> (r: Option<usize>)
        ensures
            match r {
                Some(i) => {
                    &&& i < adapters@.len()
                    &&& self.adapter_matches(adapters@[i as int])
                    &&& forall|j: int| 0 <= j < i ==> !self.adapter_matches(adapters@[j])
                },
                None => forall|j: int|
                    0 <= j < adapters@.len() ==> !self.adapter_matches(adapters@[j]),
            },
    {
        let mut i: usize = 0;
        while i < adapters.len()
            invariant
                i <= adapters@.len(),
                forall|j: int| 0 <= j < i ==> !self.adapter_matches(adapters@[j]),
            decreases adapters@.len() - i,
        {
            let a = adapters[i];
            if a.device_type == self.device_type
                && self.backends & backend_bit(a.backend) != 0
                && a.surface_supported
            {
                return Some(i);
            }
            i = i + 1;
        }
        None
    }

    /// The presentation settings for a surface of the given size: render
    /// attachment usage, the chosen format and alpha mode, and this builder's
    /// present mode.
    pub fn surface_config(
        &self,
        width: u32,
        height: u32,
        format: TextureFormat,
        alpha_mode: AlphaMode,
    ) -> (r: SurfaceConfig)
        ensures
            r == (SurfaceConfig {
                usage: TEXTURE_USAGE_RENDER_ATTACHMENT,
                format,
                width,
                height,
                present_mode: self.present_mode,
                alpha_mode,
            }),
    {
        SurfaceConfig {
            usage: TEXTURE_USAGE_RENDER_ATTACHMENT,
            format,
            width,
            height,
            present_mode: self.present_mode,
            alpha_mode,
        }
    }
}

/// Pick the surface format: the first format the surface supports that is
/// sRGB-encoded, or the first supported format when none is. The flags are,
/// in order, whether each supported format is sRGB-encoded.
pub fn select_surface_format(srgb: &Vec<bool>) -> (r: usize)
    requires
        srgb@.len() > 0,
    ensures
        r < srgb@.len(),
        srgb@[r as int] ==> forall|j: int| 0 <= j < r ==> !srgb@[j],
        !srgb@[r as int] ==> r == 0 && forall|j: int| 0 <= j < srgb@.len() ==> !srgb@[j],
{
    let mut i: usize = 0;
    while i < srgb.len()
        invariant
            i <= srgb@.len(),
            forall|j: int| 0 <= j < i ==> !srgb@[j],
        decreases srgb@.len() - i,
    {
        if srgb[i] {
            return i;
        }
        i = i + 1;
    }
    0
}

/// The presentation-facing state of an acquired device: the configuration
/// currently bound to its surface.
#[derive(Clone, Copy, Debug, PartialEq, Eq, Structural)]
pub struct Gpu {
    pub surface_config: SurfaceConfig,
}

impl Gpu {
    /// Rebind the surface to a new size, keeping every other setting.
    pub fn resize_surface(&mut self, new_size: (u32, u32))
        ensures
            final(self).surface_config == (SurfaceConfig {
                width: new_size.0,
                height: new_size.1,
                ..old(self).surface_config
            }),
    {
        self.surface_config.width = new_size.0;
        self.surface_config.height = new_size.1;
    }

    /// The texture format the surface presents in.
    pub fn get_surface_texture_format(&self) -> (r: TextureFormat)
        ensures
            r == self.surface_config.format,
    {
        self.surface_config.format
    }
}

} // verus!
