use vstd::prelude::*;

use crate::enums::{AddressMode, BufMemType, BufType, FmtType, HandleType, SampleMode};
use crate::handles::{Buf, Fmt};

verus! {

/// Largest value a native signed 32-bit dimension can hold.
pub const DIM_MAX: usize = 0x7fff_ffff;

/// Description of a buffer to create. Addresses are `0` where absent.
#[derive(Clone, Copy, Debug, PartialEq, Eq, Structural)]
pub struct BufParams {
    pub kind: BufType,
    pub size: usize,
    pub host_mapped: bool,
    pub host_writable: bool,
    pub host_readable: bool,
    pub memory_type: BufMemType,
    pub format: usize,
    pub handle_type: HandleType,
    pub initial_data: usize,
    pub user_data: usize,
}

impl BufParams {
    /// The baseline description: invalid kind, no size, no host access,
    /// automatic memory placement, no format, no data, and `handle_type` as
    /// the kind of handle through which the buffer may be shared.
    pub fn new(handle_type: HandleType) -> (r: BufParams)
        ensures
            r == (BufParams {
                kind: BufType::BUF_INVALID,
                size: 0,
                host_mapped: false,
                host_writable: false,
                host_readable: false,
                memory_type: BufMemType::BUF_MEM_AUTO,
                format: 0,
                handle_type,
                initial_data: 0,
                user_data: 0,
            }),
    {
        BufParams {
            kind: BufType::BUF_INVALID,
            size: 0,
            host_mapped: false,
            host_writable: false,
            host_readable: false,
            memory_type: BufMemType::BUF_MEM_AUTO,
            format: 0,
            handle_type,
            initial_data: 0,
            user_data: 0,
        }
    }

    pub fn kind(self, kind: BufType) -> (r: BufParams)
        ensures
            r == (BufParams { kind, ..self }),
    {
        BufParams { kind, ..self }
    }

    pub fn size(self, size: usize) -> (r: BufParams)
        ensures
            r == (BufParams { size, ..self }),
    {
        BufParams { size, ..self }
    }

    pub fn host_mapped(self, host_mapped: bool) -> (r: BufParams)
        ensures
            r == (BufParams { host_mapped, ..self }),
    {
        BufParams { host_mapped, ..self }
    }

    pub fn host_writable(self, host_writable: bool) -> (r: BufParams)
        ensures
            r == (BufParams { host_writable, ..self }),
    {
        BufParams { host_writable, ..self }
    }

    pub fn host_readable(self, host_readable: bool) -> (r: BufParams)
        ensures
            r == (BufParams { host_readable, ..self }),
    {
        BufParams { host_readable, ..self }
    }

    pub fn memory_type(self, memory_type: BufMemType) -> (r: BufParams)
        ensures
            r == (BufParams { memory_type, ..self }),
    {
        BufParams { memory_type, ..self }
    }

    /// Associates a format; the format is referenced, not owned.
    pub fn format(self, format: &Fmt) -> (r: BufParams)
        ensures
            r == (BufParams { format: format.id(), ..self }),
    {
        BufParams { format: format.as_ptr(), ..self }
    }

    pub fn handle_type(self, handle_type: HandleType) -> (r: BufParams)
        ensures
            r == (BufParams { handle_type, ..self }),
    {
        BufParams { handle_type, ..self }
    }
}

/// Description of a texture to create.
#[derive(Clone, Copy, Debug, PartialEq, Eq, Structural)]
pub struct TexParams {
    pub w: i32,
    pub h: i32,
    pub d: i32,
    pub format: usize,
    pub sampleable: bool,
    pub renderable: bool,
    pub storable: bool,
    pub blit_src: bool,
    pub blit_dst: bool,
    pub host_writable: bool,
    pub host_readable: bool,
    pub sample_mode: SampleMode,
    pub address_mode: AddressMode,
}

impl TexParams {
    /// The zeroed description: no extent, no format, no usage, nearest
    /// sampling, clamped addressing.
    pub open spec fn zeroed() -> TexParams {
        TexParams {
            w: 0,
            h: 0,
            d: 0,
            format: 0,
            sampleable: false,
            renderable: false,
            storable: false,
            blit_src: false,
            blit_dst: false,
            host_writable: false,
            host_readable: false,
            sample_mode: SampleMode::TEX_SAMPLE_NEAREST,
            address_mode: AddressMode::TEX_ADDRESS_CLAMP,
        }
    }

    pub fn w(self, w: usize) -> (r: TexParams)
        requires
            w <= DIM_MAX,
        ensures
            r == (TexParams { w: w as i32, ..self }),
    {
        TexParams { w: w as i32, ..self }
    }

    pub fn h(self, h: usize) -> (r: TexParams)
        requires
            h <= DIM_MAX,
        ensures
            r == (TexParams { h: h as i32, ..self }),
    {
        TexParams { h: h as i32, ..self }
    }

    pub fn d(self, d: usize) -> (r: TexParams)
        requires
            d <= DIM_MAX,
        ensures
            r == (TexParams { d: d as i32, ..self }),
    {
        TexParams { d: d as i32, ..self }
    }

    /// Sets the format; the format is referenced, not owned.
    pub fn format(self, format: &Fmt) -> (r: TexParams)
        ensures
            r == (TexParams { format: format.id(), ..self }),
    {
        TexParams { format: format.as_ptr(), ..self }
    }

    pub fn sampleable(self, sampleable: bool) -> (r: TexParams)
        ensures
            r == (TexParams { sampleable, ..self }),
    {
        TexParams { sampleable, ..self }
    }

    pub fn renderable(self, renderable: bool) -> (r: TexParams)
        ensures
            r == (TexParams { renderable, ..self }),
    {
        TexParams { renderable, ..self }
    }

    pub fn storable(self, storable: bool) -> (r: TexParams)
        ensures
            r == (TexParams { storable, ..self }),
    {
        TexParams { storable, ..self }
    }

    pub fn blit_src(self, blit_src: bool) -> (r: TexParams)
        ensures
            r == (TexParams { blit_src, ..self }),
    {
        TexParams { blit_src, ..self }
    }

    pub fn blit_dst(self, blit_dst: bool) -> (r: TexParams)
        ensures
            r == (TexParams { blit_dst, ..self }),
    {
        TexParams { blit_dst, ..self }
    }

    pub fn host_writable(self, host_writable: bool) -> (r: TexParams)
        ensures
            r == (TexParams { host_writable, ..self }),
    {
        TexParams { host_writable, ..self }
    }

    pub fn host_readable(self, host_readable: bool) -> (r: TexParams)
        ensures
            r == (TexParams { host_readable, ..self }),
    {
        TexParams { host_readable, ..self }
    }

    pub fn sample_mode(self, sample_mode: &SampleMode) -> (r: TexParams)
        ensures
            r == (TexParams { sample_mode: *sample_mode, ..self }),
    {
        TexParams { sample_mode: *sample_mode, ..self }
    }

    pub fn address_mode(self, address_mode: &AddressMode) -> (r: TexParams)
        ensures
            r == (TexParams { address_mode: *address_mode, ..self }),
    {
        TexParams { address_mode: *address_mode, ..self }
    }
}

impl Default for TexParams {
    fn default() -> (r: TexParams)
        ensures
            r == TexParams::zeroed(),
    {
        TexParams {
            w: 0,
            h: 0,
            d: 0,
            format: 0,
            sampleable: false,
            renderable: false,
            storable: false,
            blit_src: false,
            blit_dst: false,
            host_writable: false,
            host_readable: false,
            sample_mode: SampleMode::TEX_SAMPLE_NEAREST,
            address_mode: AddressMode::TEX_ADDRESS_CLAMP,
        }
    }
}

} // verus!
