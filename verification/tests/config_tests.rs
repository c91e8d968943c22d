use gpu_dispatch::config::{
    parse_backend, parse_power_preference, Backend, BackendChoice, ConfigError, PowerChoice,
};
use gpu_dispatch::shader::{shader_flags, ShaderFlags};

#[test]
fn backend_keywords_resolve() {
    assert_eq!(
        parse_backend(Some("vulkan")),
        Ok(BackendChoice::Specific(Backend::Vulkan))
    );
    assert_eq!(
        parse_backend(Some("metal")),
        Ok(BackendChoice::Specific(Backend::Metal))
    );
    assert_eq!(
        parse_backend(Some("dx12")),
        Ok(BackendChoice::Specific(Backend::Dx12))
    );
    assert_eq!(
        parse_backend(Some("gl")),
        Ok(BackendChoice::Specific(Backend::Gl))
    );
    assert_eq!(
        parse_backend(Some("webgpu")),
        Ok(BackendChoice::Specific(Backend::BrowserWebgpu))
    );
}

#[test]
fn backend_matching_ignores_ascii_case() {
    assert_eq!(
        parse_backend(Some("Vulkan")),
        Ok(BackendChoice::Specific(Backend::Vulkan))
    );
    assert_eq!(
        parse_backend(Some("DX12")),
        Ok(BackendChoice::Specific(Backend::Dx12))
    );
    assert_eq!(
        parse_backend(Some("WebGPU")),
        Ok(BackendChoice::Specific(Backend::BrowserWebgpu))
    );
}

#[test]
fn absent_backend_selects_primary() {
    assert_eq!(parse_backend(None), Ok(BackendChoice::Primary));
}

#[test]
fn unknown_backend_is_refused() {
    assert_eq!(parse_backend(Some("quantum")), Err(ConfigError::UnknownBackend));
    assert_eq!(parse_backend(Some("noop")), Err(ConfigError::UnknownBackend));
    assert_eq!(parse_backend(Some("")), Err(ConfigError::UnknownBackend));
    assert_eq!(parse_backend(Some("vulkan ")), Err(ConfigError::UnknownBackend));
    assert_eq!(parse_backend(Some("vulkán")), Err(ConfigError::UnknownBackend));
}

#[test]
fn power_keywords_resolve() {
    assert_eq!(parse_power_preference(Some("low")), Ok(PowerChoice::LowPower));
    assert_eq!(parse_power_preference(Some("high")), Ok(PowerChoice::HighPerformance));
    assert_eq!(parse_power_preference(Some("LOW")), Ok(PowerChoice::LowPower));
    assert_eq!(parse_power_preference(Some("High")), Ok(PowerChoice::HighPerformance));
    assert_eq!(parse_power_preference(None), Ok(PowerChoice::Unspecified));
}

#[test]
fn unknown_power_preference_is_refused() {
    assert_eq!(
        parse_power_preference(Some("medium")),
        Err(ConfigError::UnknownPowerPreference)
    );
    assert_eq!(
        parse_power_preference(Some("")),
        Err(ConfigError::UnknownPowerPreference)
    );
}

#[test]
fn validation_is_always_enabled() {
    let backends = [
        Backend::Noop,
        Backend::Vulkan,
        Backend::Metal,
        Backend::Dx12,
        Backend::Gl,
        Backend::BrowserWebgpu,
    ];
    for b in backends {
        assert!(shader_flags(b).validation);
    }
}

#[test]
fn translation_flag_marks_exactly_the_translated_backends() {
    assert_eq!(
        shader_flags(Backend::Vulkan),
        ShaderFlags { validation: true, experimental_translation: true }
    );
    assert_eq!(
        shader_flags(Backend::Metal),
        ShaderFlags { validation: true, experimental_translation: true }
    );
    assert_eq!(
        shader_flags(Backend::Gl),
        ShaderFlags { validation: true, experimental_translation: true }
    );
    assert_eq!(
        shader_flags(Backend::Dx12),
        ShaderFlags { validation: true, experimental_translation: false }
    );
    assert_eq!(
        shader_flags(Backend::BrowserWebgpu),
        ShaderFlags { validation: true, experimental_translation: false }
    );
    assert_eq!(
        shader_flags(Backend::Noop),
        ShaderFlags { validation: true, experimental_translation: false }
    );
}
