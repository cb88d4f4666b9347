use std::convert::TryFrom;

use xr_hal::{
    decode_blend_modes, decode_extension_properties, decode_fixed_text, decode_layers,
    required_capacity, retain_written, split_names, Backend, RawApiLayerProperties,
    RawExtensionProperty, UnsupportedBackend, XrBackend, XrEnvironmentBlendMode, XrFormFactor,
    XrViewConfigurationType,
};

fn fixed(name: &str, size: usize) -> Vec<u8> {
    let mut buf = vec![0u8; size];
    buf[..name.len()].copy_from_slice(name.as_bytes());
    buf
}

fn raw_extension(name: &str, version: u32) -> RawExtensionProperty {
    RawExtensionProperty { extension_name: fixed(name, 128), extension_version: version }
}

#[test]
fn capacity_follows_first_call() {
    assert_eq!(required_capacity(0, 7), Ok(7));
    assert_eq!(required_capacity(-1, 7), Err(UnsupportedBackend));
}

#[test]
fn only_written_records_are_decoded() {
    for required in 0u32..6 {
        for written in 0..=required {
            let mut buffer: Vec<RawExtensionProperty> = (0..written)
                .map(|i| raw_extension(&format!("XR_ext_{}", i), i))
                .collect();
            // records past the written range are left unterminated: decoding
            // one of them would fail
            for _ in written..required {
                buffer.push(RawExtensionProperty {
                    extension_name: vec![b'x'; 128],
                    extension_version: 99,
                });
            }
            let cap = required_capacity(0, required).unwrap();
            assert_eq!(cap, buffer.len());
            let out = decode_extension_properties(0, buffer, written).unwrap();
            assert_eq!(out.len(), written as usize);
            for (i, p) in out.iter().enumerate() {
                assert_eq!(p.name, format!("XR_ext_{}", i));
                assert_eq!(p.version, i as u32);
            }
        }
    }
}

#[test]
fn written_count_beyond_buffer_keeps_buffer() {
    let kept = retain_written(0, vec![1u64, 2, 3], 10).unwrap();
    assert_eq!(kept, vec![1, 2, 3]);
    let kept = retain_written(0, vec![1u64, 2, 3], 2).unwrap();
    assert_eq!(kept, vec![1, 2]);
    assert!(retain_written(-2, vec![1u64], 1).is_err());
}

#[test]
fn unterminated_name_is_malformed() {
    let buffer = vec![
        raw_extension("XR_KHR_vulkan_enable", 8),
        RawExtensionProperty { extension_name: vec![b'a'; 128], extension_version: 1 },
    ];
    assert_eq!(
        decode_extension_properties(0, buffer, 2).unwrap_err(),
        UnsupportedBackend
    );
}

#[test]
fn failed_fill_is_unsupported() {
    let buffer = vec![raw_extension("XR_KHR_vulkan_enable", 8)];
    assert!(Backend::enumerate_extension_properties(-1, buffer, 1).is_err());
}

#[test]
fn backend_decodes_extensions() {
    let buffer = vec![raw_extension("XR_KHR_vulkan_enable", 8), raw_extension("XR_EXT_debug_utils", 4)];
    let out = Backend::enumerate_extension_properties(0, buffer, 2).unwrap();
    assert_eq!(out.len(), 2);
    assert_eq!(out[0].name, "XR_KHR_vulkan_enable");
    assert_eq!(out[0].version, 8);
    assert_eq!(out[1].name, "XR_EXT_debug_utils");
    assert_eq!(out[1].version, 4);
}

#[test]
fn layers_are_decoded_with_their_version() {
    let layer = RawApiLayerProperties {
        layer_name: fixed("XR_APILAYER_LUNARG_core_validation", 256),
        spec_version: (1u64 << 48) | (2u64 << 32) | 3,
        layer_version: 5,
        description: fixed("core validation", 256),
    };
    let broken = RawApiLayerProperties {
        layer_name: fixed("XR_APILAYER_other", 256),
        spec_version: 0,
        layer_version: 1,
        description: vec![b'd'; 256],
    };
    let out = decode_layers(0, vec![layer.clone(), broken.clone()], 1).unwrap();
    assert_eq!(out.len(), 1);
    assert_eq!(out[0].layer_name, "XR_APILAYER_LUNARG_core_validation");
    assert_eq!(out[0].spec_version, "1.2.3");
    assert_eq!(out[0].layer_version, 5);
    assert_eq!(out[0].description, "core validation");
    assert!(Backend::enumerate_layers(0, vec![layer, broken], 2).is_err());
}

#[test]
fn blend_modes_keep_runtime_order() {
    let out = decode_blend_modes(0, vec![3, 7, 1, 2, 1], 4).unwrap();
    assert_eq!(
        out,
        vec![XrEnvironmentBlendMode::AlphaBlend, XrEnvironmentBlendMode::Opaque, XrEnvironmentBlendMode::Additive]
    );
    assert!(decode_blend_modes(-3, vec![1], 1).is_err());
}

#[test]
fn blend_mode_from_native_value() {
    assert_eq!(XrEnvironmentBlendMode::try_from(1), Ok(XrEnvironmentBlendMode::Opaque));
    assert_eq!(XrEnvironmentBlendMode::try_from(2), Ok(XrEnvironmentBlendMode::Additive));
    assert_eq!(XrEnvironmentBlendMode::try_from(3), Ok(XrEnvironmentBlendMode::AlphaBlend));
    assert_eq!(XrEnvironmentBlendMode::try_from(0), Err(()));
    assert_eq!(XrEnvironmentBlendMode::try_from(4), Err(()));
    assert_eq!(XrEnvironmentBlendMode::AlphaBlend.into_raw(), 3);
}

#[test]
fn enum_native_values() {
    assert_eq!(XrFormFactor::HeadMountedDisplay.into_raw(), 1);
    assert_eq!(XrFormFactor::HandheldDisplay.into_raw(), 2);
    assert_eq!(XrViewConfigurationType::PrimaryMono.into_raw(), 1);
    assert_eq!(XrViewConfigurationType::PrimaryStereo.into_raw(), 2);
    assert_eq!(XrViewConfigurationType::PrimaryQuadVarjo.into_raw(), 1000037000);
    assert_eq!(
        XrViewConfigurationType::SecondaryMonoFirstPersonObserverMSFT.into_raw(),
        1000054000
    );
}

#[test]
fn fixed_text_stops_at_first_null() {
    assert_eq!(decode_fixed_text(b"abc\0def\0"), Some("abc".to_string()));
    assert_eq!(decode_fixed_text(b"\0abc"), Some(String::new()));
    assert_eq!(decode_fixed_text(b"abc"), None);
    assert_eq!(decode_fixed_text(b""), None);
    assert_eq!(decode_fixed_text(&[0xC3, 0xA9, 0, 0]), Some("\u{e9}".to_string()));
    assert_eq!(decode_fixed_text(&[b'a', 0xFF, 0]), Some("a\u{FFFD}".to_string()));
}

#[test]
fn names_split_on_spaces() {
    assert_eq!(
        split_names("VK_KHR_surface VK_KHR_external_memory"),
        vec!["VK_KHR_surface".to_string(), "VK_KHR_external_memory".to_string()]
    );
    assert_eq!(split_names(" a  b "), vec!["a".to_string(), "b".to_string()]);
    assert_eq!(split_names(""), Vec::<String>::new());
    assert_eq!(split_names("single"), vec!["single".to_string()]);
}

#[test]
fn layer_version_is_written_in_decimal() {
    let layer = |v: u64| RawApiLayerProperties {
        layer_name: fixed("L", 256),
        spec_version: v,
        layer_version: 0,
        description: fixed("", 256),
    };
    let out = decode_layers(
        0,
        vec![layer((1u64 << 48) | (1u64 << 32) | 58), layer((10u64 << 48) | 12345), layer(0)],
        3,
    )
    .unwrap();
    assert_eq!(out[0].spec_version, "1.1.58");
    assert_eq!(out[1].spec_version, "10.0.12345");
    assert_eq!(out[2].spec_version, "0.0.0");
}
