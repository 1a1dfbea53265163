use ttce_wgpu_rust_core::storage_buffer::resolve_mapping;
use ttce_wgpu_rust_core::tex_trans_core_engine::{
    GpuAction, TTCEWgpuError, TexTransCoreEngineDevice,
};

#[test]
fn allocation_rounds_up_to_four_byte_alignment() {
    let device = TexTransCoreEngineDevice::new();
    let mut ctx = device.create_ctx();
    let cases = [(0, 4), (1, 4), (4, 4), (5, 8), (10, 12), (12, 12), (-3, 4)];
    for (len, expected) in cases {
        let (buf, action) = ctx.allocate_storage_buffer(len, false);
        assert_eq!(buf.size, expected, "length {}", len);
        // the host is told to create the buffer zero-filled
        assert!(matches!(&action, GpuAction::CreateStorageBuffer { buffer, contents }
            if *buffer == buf && contents.is_none()));
    }
}

#[test]
fn uploaded_buffer_is_sized_exactly_to_its_contents() {
    let device = TexTransCoreEngineDevice::new();
    let mut ctx = device.create_ctx();
    let (buf, action) = ctx.upload_storage_buffer(&[1, 2, 3, 4, 5], true);
    assert_eq!(buf.size, 5);
    assert!(buf.downloadable);
    // the host is told to create the buffer initialized with these bytes
    assert!(matches!(&action, GpuAction::CreateStorageBuffer { buffer, contents }
        if *buffer == buf && contents.as_deref() == Some(&[1, 2, 3, 4, 5][..])));
}

#[test]
fn buffers_get_distinct_handles() {
    let device = TexTransCoreEngineDevice::new();
    let mut ctx = device.create_ctx();
    let (a, _) = ctx.allocate_storage_buffer(10, false);
    let (b, _) = ctx.allocate_storage_buffer(10, false);
    assert_ne!(a.handle, b.handle);
}

#[test]
fn download_of_non_downloadable_buffer_is_a_contract_violation() {
    let device = TexTransCoreEngineDevice::new();
    let mut ctx = device.create_ctx();
    let (a, _) = ctx.allocate_storage_buffer(10, false);
    let (b, _) = ctx.allocate_storage_buffer(10, false);

    assert_eq!(
        ctx.download_storage_buffer(&a).err(),
        Some(TTCEWgpuError::BufferNotDownloadable)
    );
    assert_eq!(
        ctx.download_storage_buffer(&b).err(),
        Some(TTCEWgpuError::BufferNotDownloadable)
    );
    // refused outright: no submission, no mapping was requested
    assert!(ctx.command_encoder.is_none());
    assert_eq!(ctx.command_stack_count, 0);
}

#[test]
fn download_of_downloadable_buffer_submits_then_maps() {
    let device = TexTransCoreEngineDevice::new();
    let mut ctx = device.create_ctx();
    let (buf, _) = ctx.allocate_storage_buffer(10, true);

    let acts = ctx.download_storage_buffer(&buf).unwrap();
    assert_eq!(acts.len(), 2);
    assert!(matches!(&acts[0], GpuAction::Submit { commands } if commands.is_empty()));
    assert!(matches!(&acts[1], GpuAction::MapRead { buffer } if *buffer == buf.handle));
    assert_eq!(ctx.command_stack_count, 0);
}

#[test]
fn mapping_failure_propagates_as_an_error() {
    assert_eq!(resolve_mapping(true), Ok(()));
    assert_eq!(resolve_mapping(false), Err(TTCEWgpuError::MappingFailed));
}
