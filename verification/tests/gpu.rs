use gpu_app::gpu::{
    backend_bit, select_surface_format, AdapterInfo, AlphaMode, Backend, DeviceType, Gpu,
    GpuBuilder, LimitsPreset, PresentMode, SurfaceConfig, BACKENDS_DX12, BACKENDS_GL,
    BACKENDS_METAL, BACKENDS_PRIMARY, BACKENDS_VULKAN, TEXTURE_USAGE_RENDER_ATTACHMENT,
};
use gpu_app::graphics::TextureFormat;

fn adapter(backend: Backend, device_type: DeviceType, surface_supported: bool) -> AdapterInfo {
    AdapterInfo {
        backend,
        device_type,
        surface_supported,
    }
}

#[test]
fn builder_defaults() {
    let b = GpuBuilder::new();
    assert_eq!(b.backends, BACKENDS_PRIMARY);
    assert_eq!(b.device_type, DeviceType::DiscreteGpu);
    assert_eq!(b.present_mode, PresentMode::Fifo);
    assert_eq!(b.features, 0);
    assert_eq!(b.limits, LimitsPreset::Defaults);
}

#[test]
fn backend_bits_are_distinct_powers_of_two() {
    let all = [
        Backend::Empty,
        Backend::Vulkan,
        Backend::Metal,
        Backend::Dx12,
        Backend::Gl,
        Backend::BrowserWebGpu,
    ];
    for (i, b) in all.iter().enumerate() {
        assert_eq!(backend_bit(*b), 1u32 << i);
    }
}

#[test]
fn builder_setters() {
    let b = GpuBuilder::new()
        .with_backend(Backend::Gl)
        .with_device(DeviceType::Cpu)
        .with_feature(0b101)
        .with_feature(0b010)
        .with_limits(LimitsPreset::Downlevel)
        .with_present_mode(PresentMode::Mailbox);
    assert_eq!(b.backends, BACKENDS_PRIMARY | BACKENDS_GL);
    assert_eq!(b.device_type, DeviceType::Cpu);
    assert_eq!(b.features, 0b111);
    assert_eq!(b.limits, LimitsPreset::Downlevel);
    assert_eq!(b.present_mode, PresentMode::Mailbox);
}

#[test]
fn select_adapter_picks_first_match() {
    let b = GpuBuilder::new();
    let adapters = vec![
        adapter(Backend::Vulkan, DeviceType::IntegratedGpu, true),
        adapter(Backend::Vulkan, DeviceType::DiscreteGpu, true),
        adapter(Backend::Metal, DeviceType::DiscreteGpu, true),
    ];
    assert_eq!(b.select_adapter(&adapters), Some(1));
}

#[test]
fn select_adapter_skips_unsupported_surface() {
    let b = GpuBuilder::new();
    let adapters = vec![
        adapter(Backend::Vulkan, DeviceType::DiscreteGpu, false),
        adapter(Backend::Vulkan, DeviceType::DiscreteGpu, true),
    ];
    assert_eq!(b.select_adapter(&adapters), Some(1));
}

#[test]
fn select_adapter_respects_backend_mask() {
    let b = GpuBuilder {
        backends: BACKENDS_METAL,
        ..GpuBuilder::new()
    };
    let adapters = vec![
        adapter(Backend::Vulkan, DeviceType::DiscreteGpu, true),
        adapter(Backend::Metal, DeviceType::DiscreteGpu, true),
    ];
    assert_eq!(b.select_adapter(&adapters), Some(1));
}

#[test]
fn select_adapter_none_when_nothing_matches() {
    let b = GpuBuilder::new();
    let adapters = vec![
        adapter(Backend::Gl, DeviceType::DiscreteGpu, true),
        adapter(Backend::Vulkan, DeviceType::Cpu, true),
        adapter(Backend::Vulkan, DeviceType::DiscreteGpu, false),
    ];
    assert_eq!(b.select_adapter(&adapters), None);
    assert_eq!(b.select_adapter(&Vec::new()), None);
}

#[test]
fn select_adapter_honours_added_backend() {
    let b = GpuBuilder::new()
        .with_backend(Backend::Gl)
        .with_device(DeviceType::IntegratedGpu);
    let adapters = vec![
        adapter(Backend::Gl, DeviceType::IntegratedGpu, true),
        adapter(Backend::Vulkan, DeviceType::IntegratedGpu, true),
    ];
    assert_eq!(b.select_adapter(&adapters), Some(0));
}

#[test]
fn surface_format_prefers_first_srgb() {
    assert_eq!(select_surface_format(&vec![false, true, true]), 1);
    assert_eq!(select_surface_format(&vec![true, false]), 0);
}

#[test]
fn surface_format_falls_back_to_first() {
    assert_eq!(select_surface_format(&vec![false, false, false]), 0);
    assert_eq!(select_surface_format(&vec![false]), 0);
}

#[test]
fn surface_config_carries_choices() {
    let b = GpuBuilder::new().with_present_mode(PresentMode::Immediate);
    let c = b.surface_config(800, 600, TextureFormat::Bgra8UnormSrgb, AlphaMode::Opaque);
    assert_eq!(
        c,
        SurfaceConfig {
            usage: TEXTURE_USAGE_RENDER_ATTACHMENT,
            format: TextureFormat::Bgra8UnormSrgb,
            width: 800,
            height: 600,
            present_mode: PresentMode::Immediate,
            alpha_mode: AlphaMode::Opaque,
        }
    );
}

#[test]
fn primary_backends_cover_the_first_class_ones() {
    assert_eq!(
        BACKENDS_PRIMARY,
        BACKENDS_VULKAN | BACKENDS_METAL | BACKENDS_DX12 | 32
    );
    assert_eq!(backend_bit(Backend::BrowserWebGpu), 32);
    assert_eq!(backend_bit(Backend::Gl), BACKENDS_GL);
}

#[test]
fn resize_surface_keeps_other_settings() {
    let b = GpuBuilder::new();
    let config = b.surface_config(640, 360, TextureFormat::Rgba8UnormSrgb, AlphaMode::Auto);
    let mut gpu = Gpu {
        surface_config: config,
    };
    gpu.resize_surface((1024, 768));
    assert_eq!(gpu.surface_config.width, 1024);
    assert_eq!(gpu.surface_config.height, 768);
    assert_eq!(gpu.surface_config.format, TextureFormat::Rgba8UnormSrgb);
    assert_eq!(gpu.surface_config.present_mode, PresentMode::Fifo);
    assert_eq!(
        gpu.get_surface_texture_format(),
        TextureFormat::Rgba8UnormSrgb
    );
}
