use deskstream::encoder::{
    classify_adapter, maker_of_lowercase_name, classify_mft_event, detect_hardware, encoder_settings, forces_keyframe,
    inputs_after_accept, inputs_after_event, sample_timing, AdapterMaker, GpuBackend, MftEvent,
};

fn wide(s: &str) -> Vec<u16> {
    let mut v: Vec<u16> = s.encode_utf16().collect();
    v.extend_from_slice(&[0, 0, 0]);
    v
}

#[test]
fn adapters_are_classified_by_vendor_or_name() {
    assert_eq!(classify_adapter(0x10DE, &wide("Some Card")), AdapterMaker::Nvidia);
    assert_eq!(classify_adapter(0, &wide("NVIDIA GeForce RTX 4070")), AdapterMaker::Nvidia);
    assert_eq!(classify_adapter(0, &wide("AMD Radeon RX 7800")), AdapterMaker::Amd);
    assert_eq!(classify_adapter(0x8086, &wide("Display")), AdapterMaker::Intel);
    assert_eq!(classify_adapter(0, &wide("Intel(R) UHD Graphics 770")), AdapterMaker::Intel);
    assert_eq!(classify_adapter(0x1414, &wide("Microsoft Basic Render Driver")), AdapterMaker::Other);
    // "Radeon" is checked before Intel's words, and NVIDIA before both.
    assert_eq!(classify_adapter(0x8086, &wide("radeon")), AdapterMaker::Amd);
}

#[test]
fn nvidia_is_preferred_then_amd_then_intel() {
    let all = vec![
        (0x8086u32, wide("Intel Iris Xe")),
        (0x1002u32, wide("AMD")),
        (0x10DEu32, wide("NVIDIA")),
    ];
    assert_eq!(detect_hardware(&all), (true, true, true, Some(GpuBackend::NvidiaNvenc)));
    assert_eq!(detect_hardware(&all[..2]), (false, true, true, Some(GpuBackend::AmdAmf)));
    assert_eq!(detect_hardware(&all[..1]), (false, false, true, Some(GpuBackend::IntelQuickSync)));
    assert_eq!(detect_hardware(&[]), (false, false, false, Some(GpuBackend::WindowsHardwareMft)));
    assert_eq!(GpuBackend::IntelQuickSync.name(), "Intel Quick Sync");
    assert_eq!(GpuBackend::WindowsHardwareMft.name(), "Windows Hardware MFT");
}

#[test]
fn encoder_settings_for_a_stream() {
    let c = encoder_settings(1920, 1080, 60, 8_000_000);
    assert!(c.low_latency && c.constant_bitrate);
    assert_eq!((c.b_frames, c.gop_size, c.mean_bitrate), (0, 120, 8_000_000));
    assert_eq!(c.sample_size, 3_110_400);
    assert_eq!(c.buffer_len, 3_110_400);
    assert_eq!(c.default_stride, 1920);
}

#[test]
fn frames_are_timed_and_keyed() {
    assert_eq!(sample_timing(0, 30), (0, 333_333));
    assert_eq!(sample_timing(3, 30), (999_999, 333_333));
    assert_eq!(sample_timing(7, 20_000_000), (0, 0));
    assert!(forces_keyframe(false, 60, 30));
    assert!(!forces_keyframe(false, 61, 30));
    assert!(forces_keyframe(true, 61, 30));
}

#[test]
fn async_encoder_queue() {
    assert_eq!(classify_mft_event(140), MftEvent::NeedInput);
    assert_eq!(classify_mft_event(141), MftEvent::HaveOutput);
    assert_eq!(classify_mft_event(142), MftEvent::DrainComplete);
    assert_eq!(classify_mft_event(143), MftEvent::Marker);
    assert_eq!(classify_mft_event(7), MftEvent::Other);
    assert_eq!(inputs_after_event(2, MftEvent::NeedInput), 3);
    assert_eq!(inputs_after_event(2, MftEvent::HaveOutput), 2);
    assert_eq!(inputs_after_accept(3), 2);
    assert_eq!(inputs_after_accept(0), 0);
}

#[test]
fn lowercase_names_pick_the_maker() {
    assert_eq!(maker_of_lowercase_name(0, "nvidia geforce rtx"), AdapterMaker::Nvidia);
    assert_eq!(maker_of_lowercase_name(0, "amd radeon"), AdapterMaker::Amd);
    assert_eq!(maker_of_lowercase_name(0, "intel(r) uhd graphics"), AdapterMaker::Intel);
    assert_eq!(maker_of_lowercase_name(0x10DE, "display"), AdapterMaker::Nvidia);
    assert_eq!(maker_of_lowercase_name(0, "NVIDIA"), AdapterMaker::Other);
    assert_eq!(maker_of_lowercase_name(0, "basic display"), AdapterMaker::Other);
}
