use runen_gpu::attachment::{GpuColorClearValue, GpuDepthClearValue, GpuStencilClearValue};
use runen_gpu::diagnostics::{GpuWorkOperationCause, GpuWorkOperationSubject};
use runen_gpu::render_state::GpuColorWriteMask;

#[test]
fn depth_clear_values_are_finite_and_normalized() {
    assert_eq!(GpuDepthClearValue::from_bits(0.5f32.to_bits()).unwrap().bits(), 0.5f32.to_bits());
    assert_eq!(GpuDepthClearValue::from_bits(1.0f32.to_bits()).unwrap().bits(), 1.0f32.to_bits());
    assert_eq!(
        GpuDepthClearValue::from_bits((-0.0f32).to_bits()).unwrap(),
        GpuDepthClearValue::from_bits(0.0f32.to_bits()).unwrap()
    );
    let above = GpuDepthClearValue::from_bits(1.0001f32.to_bits()).unwrap_err();
    assert_eq!(above.cause(), GpuWorkOperationCause::OutOfRangeClearValue);
    let negative = GpuDepthClearValue::from_bits((-0.25f32).to_bits()).unwrap_err();
    assert_eq!(negative.cause(), GpuWorkOperationCause::OutOfRangeClearValue);
    let nan = GpuDepthClearValue::from_bits(f32::NAN.to_bits()).unwrap_err();
    assert_eq!(nan.cause(), GpuWorkOperationCause::NonFiniteClearValue);
    assert_eq!(nan.subject(), &GpuWorkOperationSubject::DepthClearValue);
    let infinite = GpuDepthClearValue::from_bits(f32::INFINITY.to_bits()).unwrap_err();
    assert_eq!(infinite.cause(), GpuWorkOperationCause::NonFiniteClearValue);
}

#[test]
fn color_clear_values_are_finite_and_fold_negative_zero() {
    let bits = [0.25f64, -0.0, 1.5, -2.0].map(f64::to_bits);
    let value = GpuColorClearValue::from_bits(bits).unwrap();
    assert_eq!(value.bits(), [0.25f64, 0.0, 1.5, -2.0].map(f64::to_bits));
    let error = GpuColorClearValue::from_bits([0.0f64, f64::NAN, f64::INFINITY, 1.0].map(f64::to_bits))
        .unwrap_err();
    assert_eq!(error.cause(), GpuWorkOperationCause::NonFiniteClearValue);
    assert_eq!(error.subject(), &GpuWorkOperationSubject::ColorClearComponent(1));
}

#[test]
fn stencil_clear_values_fit_eight_bits() {
    assert_eq!(GpuStencilClearValue::new(255).unwrap().value(), 255);
    let error = GpuStencilClearValue::new(256).unwrap_err();
    assert_eq!(error.cause(), GpuWorkOperationCause::OutOfRangeClearValue);
    assert_eq!(error.subject(), &GpuWorkOperationSubject::StencilClearValue(256));
}

#[test]
fn write_masks_accept_only_the_four_channel_bits() {
    assert_eq!(GpuColorWriteMask::from_bits(0b1111).unwrap(), GpuColorWriteMask::all());
    assert_eq!(GpuColorWriteMask::from_bits(0).unwrap(), GpuColorWriteMask::none());
    assert!(GpuColorWriteMask::from_bits(0b1_0000).is_err());
    let red_blue = GpuColorWriteMask::from_bits(0b0101).unwrap();
    assert!(red_blue.contains(GpuColorWriteMask::red()));
    assert!(red_blue.contains(GpuColorWriteMask::blue()));
    assert!(!red_blue.contains(GpuColorWriteMask::green()));
    assert!(GpuColorWriteMask::all().contains(red_blue));
    assert_eq!(red_blue.bits(), 5);
}
