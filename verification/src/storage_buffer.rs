//! Opaque GPU byte buffers: allocation, upload and readback.

use vstd::prelude::*;

use vstd::slice::slice_to_vec;

use crate::tex_trans_core_engine::{ActionView, GpuAction, TTCEWgpuError, TexTransCoreEngineContext};

verus! {

/// A GPU storage buffer as the engine sees it: its size, whether it was
/// allocated with host-readback capability, and a handle with which the
/// host correlates the actual GPU object.
#[derive(Clone, Copy, PartialEq, Eq, Structural, Debug)]
pub struct TTStorageBuffer {
    pub handle: u64,
    pub size: u64,
    pub downloadable: bool,
}

/// Size a storage-buffer allocation actually gets: the requested length
/// rounded up to a 4-byte boundary, and at least 4 bytes.
pub open spec fn spec_aligned_buffer_len(len: i32) -> u64 {
    if len <= 0 {
        4u64
    } else {
        (((len + 3) / 4) * 4) as u64
    }
}

impl TexTransCoreEngineContext {
    /// Allocates a zero-filled storage buffer of the aligned length: the
    /// returned action tells the host to create it zeroed (no contents),
    /// with read-mapping capability if and only if `downloadable`.
    pub fn allocate_storage_buffer(&mut self, buffer_len: i32, downloadable: bool) -> (r: (
        TTStorageBuffer,
        GpuAction,
    ))
        requires
            old(self).next_resource_handle < u64::MAX,
        ensures
            r.0.handle == old(self).next_resource_handle,
            r.0.size == spec_aligned_buffer_len(buffer_len),
            r.0.downloadable == downloadable,
            r.1@ == (ActionView::CreateStorageBuffer { buffer: r.0, contents: None }),
            final(self).next_resource_handle == old(self).next_resource_handle + 1,
            final(self).command_encoder == old(self).command_encoder,
            final(self).command_stack_count == old(self).command_stack_count,
    {
        let aligned_len: u64 = if buffer_len <= 0 {
            4
        } else {
            ((buffer_len as u64) + 3) / 4 * 4
        };
        let handle = self.next_resource_handle;
        self.next_resource_handle = self.next_resource_handle + 1;
        let buffer = TTStorageBuffer { handle, size: aligned_len, downloadable };
        (buffer, GpuAction::CreateStorageBuffer { buffer, contents: None })
    }

    /// Allocates a storage buffer sized exactly to the uploaded bytes: the
    /// returned action tells the host to create it initialized with those
    /// very bytes, with read-mapping capability if and only if
    /// `downloadable`.
    pub fn upload_storage_buffer(&mut self, buffer_data_span: &[u8], downloadable: bool) -> (r: (
        TTStorageBuffer,
        GpuAction,
    ))
        requires
            old(self).next_resource_handle < u64::MAX,
        ensures
            r.0.handle == old(self).next_resource_handle,
            r.0.size == buffer_data_span@.len(),
            r.0.downloadable == downloadable,
            r.1@ == (ActionView::CreateStorageBuffer {
                buffer: r.0,
                contents: Some(buffer_data_span@),
            }),
            final(self).next_resource_handle == old(self).next_resource_handle + 1,
            final(self).command_encoder == old(self).command_encoder,
            final(self).command_stack_count == old(self).command_stack_count,
    {
        let handle = self.next_resource_handle;
        self.next_resource_handle = self.next_resource_handle + 1;
        let buffer = TTStorageBuffer { handle, size: buffer_data_span.len() as u64, downloadable };
        let contents: Vec<u8> = slice_to_vec(buffer_data_span);
        (buffer, GpuAction::CreateStorageBuffer { buffer, contents: Some(contents) })
    }

    /// Readback of a storage buffer. A buffer allocated without
    /// `downloadable` is refused outright — no GPU work is issued and no
    /// stale bytes can be returned. Otherwise pending work is flushed
    /// (mapping completion is only observable after submission) and the
    /// host is told to submit and then map the buffer for reading.
    pub fn download_storage_buffer(&mut self, storage_buffer: &TTStorageBuffer) -> (r: Result<
        Vec<GpuAction>,
        TTCEWgpuError,
    >)
        ensures
            !storage_buffer.downloadable ==> {
                &&& r matches Err(e) && e == TTCEWgpuError::BufferNotDownloadable
                &&& *final(self) == *old(self)
            },
            storage_buffer.downloadable ==> {
                &&& r matches Ok(acts) && acts@.map_values(|a: GpuAction| a@) =~= seq![
                    ActionView::Submit { commands: old(self).pending() },
                    ActionView::MapRead { buffer: storage_buffer.handle },
                ]
                &&& final(self).command_encoder is None
                &&& final(self).command_stack_count == 0
                &&& final(self).next_resource_handle == old(self).next_resource_handle
            },
    {
        if !storage_buffer.downloadable {
            return Err(TTCEWgpuError::BufferNotDownloadable);
        }
        let batch = self.send_command();
        let mut actions: Vec<GpuAction> = Vec::new();
        actions.push(GpuAction::Submit { commands: batch });
        actions.push(GpuAction::MapRead { buffer: storage_buffer.handle });
        Ok(actions)
    }
}

/// Turns the host's buffer-mapping outcome into the engine's result: a
/// mapping failure propagates as an error, never as silently unread
/// memory.
pub fn resolve_mapping(mapped: bool) -> (r: Result<(), TTCEWgpuError>)
    ensures
        mapped <==> r is Ok,
        !mapped ==> (r matches Err(e) && e == TTCEWgpuError::MappingFailed),
{
    if mapped {
        Ok(())
    } else {
        Err(TTCEWgpuError::MappingFailed)
    }
}

} // verus!