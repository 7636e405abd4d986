use vstd::prelude::*;

use crate::enums::FmtType;
use crate::handles::{Buf, Tex};
use crate::params::DIM_MAX;

verus! {

/// Description of one image plane to upload. The pixels are borrowed, and
/// the backing buffer is referenced by address (`0` where there is none).
#[derive(Clone, Copy, Debug)]
pub struct PlaneData<'a> {
    pub type_: FmtType,
    pub width: i32,
    pub height: i32,
    pub component_size: [i32; 4],
    pub component_pad: [i32; 4],
    pub component_map: [i32; 4],
    pub pixel_stride: usize,
    pub row_stride: usize,
    pub pixels: Option<&'a [u8]>,
    pub buf: usize,
    pub buf_offset: usize,
}

impl<'a> PlaneData<'a> {
    /// The zeroed description: unknown type, no extent, zero tuples and
    /// strides, no pixels and no buffer.
    pub open spec fn is_zeroed(&self) -> bool {
        &&& self.type_ == FmtType::FMT_UNKNOWN
        &&& self.width == 0
        &&& self.height == 0
        &&& self.component_size@ == seq![0i32, 0, 0, 0]
        &&& self.component_pad@ == seq![0i32, 0, 0, 0]
        &&& self.component_map@ == seq![0i32, 0, 0, 0]
        &&& self.pixel_stride == 0
        &&& self.row_stride == 0
        &&& self.pixels is None
        &&& self.buf == 0
        &&& self.buf_offset == 0
    }

    pub fn new() -> (r: PlaneData<'a>)
        ensures
            r.is_zeroed(),
    {
        let r = PlaneData {
            type_: FmtType::FMT_UNKNOWN,
            width: 0,
            height: 0,
            component_size: [0, 0, 0, 0],
            component_pad: [0, 0, 0, 0],
            component_map: [0, 0, 0, 0],
            pixel_stride: 0,
            row_stride: 0,
            pixels: None,
            buf: 0,
            buf_offset: 0,
        };
        assert(r.component_size@ =~= seq![0i32, 0, 0, 0]);
        assert(r.component_pad@ =~= seq![0i32, 0, 0, 0]);
        assert(r.component_map@ =~= seq![0i32, 0, 0, 0]);
        r
    }

    pub fn type_(self, type_: &FmtType) -> (r: PlaneData<'a>)
        ensures
            r == (PlaneData { type_: *type_, ..self }),
    {
        PlaneData { type_: *type_, ..self }
    }

    pub fn width(self, width: usize) -> (r: PlaneData<'a>)
        requires
            width <= DIM_MAX,
        ensures
            r == (PlaneData { width: width as i32, ..self }),
    {
        PlaneData { width: width as i32, ..self }
    }

    pub fn height(self, height: usize) -> (r: PlaneData<'a>)
        requires
            height <= DIM_MAX,
        ensures
            r == (PlaneData { height: height as i32, ..self }),
    {
        PlaneData { height: height as i32, ..self }
    }

    pub fn component_size(self, component_size: &[i32; 4]) -> (r: PlaneData<'a>)
        ensures
            r == (PlaneData { component_size: *component_size, ..self }),
    {
        PlaneData { component_size: *component_size, ..self }
    }

    pub fn component_pad(self, component_pad: &[i32; 4]) -> (r: PlaneData<'a>)
        ensures
            r == (PlaneData { component_pad: *component_pad, ..self }),
    {
        PlaneData { component_pad: *component_pad, ..self }
    }

    pub fn component_map(self, component_map: &[i32; 4]) -> (r: PlaneData<'a>)
        ensures
            r == (PlaneData { component_map: *component_map, ..self }),
    {
        PlaneData { component_map: *component_map, ..self }
    }

    pub fn pixel_stride(self, pixel_stride: usize) -> (r: PlaneData<'a>)
        ensures
            r == (PlaneData { pixel_stride, ..self }),
    {
        PlaneData { pixel_stride, ..self }
    }

    pub fn row_stride(self, row_stride: usize) -> (r: PlaneData<'a>)
        ensures
            r == (PlaneData { row_stride, ..self }),
    {
        PlaneData { row_stride, ..self }
    }

    /// Sets the pixels; they are borrowed for as long as the description lives.
    pub fn pixels(self, pixels: &'a [u8]) -> (r: PlaneData<'a>)
        ensures
            r == (PlaneData { pixels: Some(pixels), ..self }),
    {
        PlaneData { pixels: Some(pixels), ..self }
    }

    /// Sets the backing buffer; the buffer is referenced, not owned.
    pub fn buf(self, buf: &Buf) -> (r: PlaneData<'a>)
        ensures
            r == (PlaneData { buf: buf.id(), ..self }),
    {
        PlaneData { buf: buf.as_ptr(), ..self }
    }

    pub fn buf_offset(self, buf_offset: usize) -> (r: PlaneData<'a>)
        ensures
            r == (PlaneData { buf_offset, ..self }),
    {
        PlaneData { buf_offset, ..self }
    }

    /// Records a successful upload of this plane into `tex`: the device left
    /// the texture at address `produced`, which `tex` now owns in place of
    /// its former one.
    pub fn upload_plane(&self, tex: &mut Tex, produced: usize)
        requires
            produced != 0,
        ensures
            final(tex).id() == produced,
            final(tex).device() == old(tex).device(),
            final(tex).params_spec() is None,
    {
        tex.set_uploaded(produced);
    }
}

} // verus!
