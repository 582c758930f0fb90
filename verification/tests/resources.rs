use gpu_dispatch::device::{acquire_context, PowerPreference, Usage};
use gpu_dispatch::error::GpuError;

fn context() -> (gpu_dispatch::device::Device, gpu_dispatch::dispatch::Queue) {
    acquire_context(PowerPreference::HighPerformance, true, true).unwrap()
}

#[test]
fn acquire_without_adapter_fails() {
    let r = acquire_context(PowerPreference::HighPerformance, false, false);
    assert_eq!(r.err().unwrap(), GpuError::NoSuitableDevice);
}

#[test]
fn acquire_with_bad_device_fails() {
    let r = acquire_context(PowerPreference::LowPower, true, false);
    assert_eq!(r.err().unwrap(), GpuError::DeviceCreation);
}

#[test]
fn acquire_yields_fresh_context() {
    let (device, queue) = context();
    assert_eq!(device.resource_count(), 0);
    assert_eq!(queue.submission_count(), 0);
}

#[test]
fn zero_width_is_rejected_without_allocating() {
    let (mut device, _queue) = context();
    let r = device.create_image_resource(0, 4, Usage::input(), true);
    assert_eq!(r.err().unwrap(), GpuError::InvalidDimensions);
    assert_eq!(device.resource_count(), 0);
}

#[test]
fn zero_height_is_rejected_without_allocating() {
    let (mut device, _queue) = context();
    let r = device.create_image_resource(4, 0, Usage::input(), true);
    assert_eq!(r.err().unwrap(), GpuError::InvalidDimensions);
    assert_eq!(device.resource_count(), 0);
}

#[test]
fn empty_usage_is_rejected() {
    let (mut device, _queue) = context();
    let none = Usage {
        shader_readable: false,
        shader_writable: false,
        copy_src: false,
        copy_dst: false,
    };
    let r = device.create_image_resource(4, 4, none, true);
    assert_eq!(r.err().unwrap(), GpuError::Allocation);
    assert_eq!(device.resource_count(), 0);
}

#[test]
fn device_refused_allocation_is_reported() {
    let (mut device, _queue) = context();
    let r = device.create_image_resource(4, 4, Usage::input(), false);
    assert_eq!(r.err().unwrap(), GpuError::Allocation);
    assert_eq!(device.resource_count(), 0);
}

#[test]
fn fresh_resource_is_zeroed() {
    let (mut device, _queue) = context();
    let id = device.create_image_resource(3, 2, Usage::output(), true).unwrap();
    assert_eq!(id, 0);
    let bytes = device.read_back(id);
    assert_eq!(bytes, vec![0u8; 24]);
}

#[test]
fn upload_round_trip_is_byte_identical() {
    let (mut device, _queue) = context();
    let id = device.create_image_resource(2, 2, Usage::input(), true).unwrap();
    let pixels: Vec<u8> = vec![
        255, 0, 0, 255, 0, 255, 0, 255, // first row
        0, 0, 255, 255, 255, 255, 255, 255, // second row
    ];
    device.upload(id, &pixels, 8).unwrap();
    assert_eq!(device.read_back(id), pixels);
}

#[test]
fn upload_strips_row_padding() {
    let (mut device, _queue) = context();
    let id = device.create_image_resource(1, 2, Usage::input(), true).unwrap();
    // rows of 4 pixel bytes each, padded to a stride of 6
    let padded: Vec<u8> = vec![1, 2, 3, 4, 9, 9, 5, 6, 7, 8, 9, 9];
    device.upload(id, &padded, 6).unwrap();
    assert_eq!(device.read_back(id), vec![1, 2, 3, 4, 5, 6, 7, 8]);
}

#[test]
fn upload_with_wrong_length_is_rejected() {
    let (mut device, _queue) = context();
    let id = device.create_image_resource(2, 2, Usage::input(), true).unwrap();
    let short: Vec<u8> = vec![0u8; 15];
    let r = device.upload(id, &short, 8);
    assert_eq!(r.err().unwrap(), GpuError::BufferLengthMismatch);
    assert_eq!(device.read_back(id), vec![0u8; 16]);
}

#[test]
fn upload_with_short_stride_is_rejected() {
    let (mut device, _queue) = context();
    let id = device.create_image_resource(2, 2, Usage::input(), true).unwrap();
    let bytes: Vec<u8> = vec![7u8; 12];
    let r = device.upload(id, &bytes, 6);
    assert_eq!(r.err().unwrap(), GpuError::BufferLengthMismatch);
}

#[test]
fn error_messages_name_the_stage() {
    assert!(GpuError::InvalidDimensions.message().contains("dimensions"));
    assert!(GpuError::Allocation.message().contains("allocate"));
    assert!(GpuError::BufferLengthMismatch.message().contains("row layout"));
    assert_eq!(
        GpuError::NoSuitableDevice.message(),
        "no suitable compute device is available"
    );
}

#[test]
fn error_messages_are_distinct_per_stage() {
    let messages = vec![
        GpuError::NoSuitableDevice.message(),
        GpuError::DeviceCreation.message(),
        GpuError::Allocation.message(),
        GpuError::ShaderCompilation("a diagnostic".to_string()).message(),
        GpuError::BindingLayoutMismatch.message(),
        GpuError::MapTimeout.message(),
        GpuError::DeviceLost.message(),
        GpuError::InvalidDimensions.message(),
        GpuError::BufferLengthMismatch.message(),
    ];
    for i in 0..messages.len() {
        for j in 0..messages.len() {
            if i != j {
                assert_ne!(messages[i], messages[j]);
            }
        }
    }
}
