use placebo::{
    AddressMode, Buf, BufMemType, BufParams, BufType, Fmt, FmtType, Gpu, HandleType, PlaneData,
    SampleMode, Tex, TexParams,
};

const DEVICE: usize = 0x1000;
const RGBA8: usize = 0x2000;

#[test]
fn buffer_round_trip() {
    let gpu = Gpu::new(DEVICE);
    let params = BufParams::new(HandleType::HANDLE_FD)
        .kind(BufType::BUF_UNIFORM)
        .size(256)
        .host_writable(true)
        .memory_type(BufMemType::BUF_MEM_HOST);
    assert_eq!(params.kind, BufType::BUF_UNIFORM);
    assert_eq!(params.size, 256);
    assert!(params.host_writable);
    assert!(!params.host_readable);
    assert!(!params.host_mapped);
    assert_eq!(params.memory_type, BufMemType::BUF_MEM_HOST);
    assert_eq!(params.format, 0);
    let buf = Buf::new(&gpu, 0x3000);
    assert_eq!(buf.as_ptr(), 0x3000);
    assert_eq!(buf.device_ptr(), DEVICE);
    assert_eq!(buf.release(), (DEVICE, 0x3000));
}

#[test]
fn buf_params_baseline() {
    let p = BufParams::new(HandleType::HANDLE_WIN32);
    assert_eq!(p.kind, BufType::BUF_INVALID);
    assert_eq!(p.size, 0);
    assert_eq!(p.memory_type, BufMemType::BUF_MEM_AUTO);
    assert_eq!(p.handle_type, HandleType::HANDLE_WIN32);
    assert_eq!(p.initial_data, 0);
    assert_eq!(p.user_data, 0);
    let q = p.format(&Fmt::create_struct(RGBA8)).handle_type(HandleType::HANDLE_DMA_BUF);
    assert_eq!(q.format, RGBA8);
    assert_eq!(q.handle_type, HandleType::HANDLE_DMA_BUF);
}

#[test]
fn tex_params_builder() {
    let p = TexParams::default();
    assert_eq!((p.w, p.h, p.d), (0, 0, 0));
    assert_eq!(p.format, 0);
    assert!(!p.sampleable && !p.renderable && !p.storable);
    assert_eq!(p.sample_mode, SampleMode::TEX_SAMPLE_NEAREST);
    assert_eq!(p.address_mode, AddressMode::TEX_ADDRESS_CLAMP);
    let q = p
        .w(64)
        .h(32)
        .d(1)
        .renderable(true)
        .blit_src(true)
        .blit_dst(true)
        .storable(true)
        .host_readable(true)
        .host_writable(true)
        .sample_mode(&SampleMode::TEX_SAMPLE_LINEAR)
        .address_mode(&AddressMode::TEX_ADDRESS_MIRROR);
    assert_eq!((q.w, q.h, q.d), (64, 32, 1));
    assert!(q.renderable && q.blit_src && q.blit_dst && q.storable);
    assert!(q.host_readable && q.host_writable && !q.sampleable);
    assert_eq!(q.sample_mode, SampleMode::TEX_SAMPLE_LINEAR);
    assert_eq!(q.address_mode, AddressMode::TEX_ADDRESS_MIRROR);
    assert_eq!(TexParams::default().w(2147483647).w, i32::MAX);
}

#[test]
fn texture_recreate() {
    let gpu = Gpu::new(DEVICE);
    let rgba8 = Fmt::create_struct(RGBA8);
    assert!(!rgba8.is_null());
    let mut tex = Tex::default(&gpu);
    assert_eq!(tex.as_ptr(), 0);
    let p = TexParams::default().w(64).h(64).d(1).format(&rgba8).sampleable(true);
    assert_eq!(tex.tex_recreate(&p, 0x4000), (true, None));
    assert_ne!(tex.as_ptr(), 0);
    assert_eq!(tex.params(), Some(p));
    let p2 = p.w(128);
    assert_eq!(tex.tex_recreate(&p2, 0x5000), (true, Some((DEVICE, 0x4000))));
    assert_eq!(tex.as_ptr(), 0x5000);
    assert_eq!(tex.params().map(|q| q.w), Some(128));
    assert_eq!(tex.tex_invalidate(), Some((DEVICE, 0x5000)));
    assert_eq!(tex.release(), Some((DEVICE, 0x5000)));
}

#[test]
fn texture_recreate_failure_keeps_handle() {
    let gpu = Gpu::new(DEVICE);
    let p = TexParams::default().w(16).h(16).d(1);
    let mut tex = Tex::new(&gpu, &p, 0x4000);
    assert_eq!(tex.tex_recreate(&p.w(1 << 20), 0), (false, None));
    assert_eq!(tex.as_ptr(), 0x4000);
    assert_eq!(tex.device_ptr(), DEVICE);
    assert_eq!(tex.params(), Some(p));
    assert_eq!(tex.release(), Some((DEVICE, 0x4000)));
}

#[test]
fn empty_texture_recreate_failure_stays_empty() {
    let mut tex = Tex::default(&Gpu::new(DEVICE));
    assert_eq!(tex.tex_recreate(&TexParams::default().w(8), 0), (false, None));
    assert_eq!(tex.as_ptr(), 0);
    assert_eq!(tex.params(), None);
    assert_eq!(tex.release(), None);
}

#[test]
fn empty_texture_is_inert() {
    let tex = Tex::default(&Gpu::new(DEVICE));
    assert_eq!(tex.device_ptr(), DEVICE);
    assert_eq!(tex.params(), None);
    assert_eq!(tex.tex_invalidate(), None);
    assert_eq!(tex.release(), None);
}

#[test]
fn plane_upload_from_checkerboard() {
    let gpu = Gpu::new(DEVICE);
    let pixels: Vec<u8> = (0..16384).map(|i| if i % 2 == 0 { 0x00 } else { 0xff }).collect();
    let plane = PlaneData::new()
        .type_(&FmtType::FMT_UNORM)
        .width(64)
        .height(64)
        .pixel_stride(4)
        .row_stride(256)
        .pixels(&pixels)
        .component_size(&[8, 8, 8, 8])
        .component_map(&[0, 1, 2, 3]);
    assert_eq!(plane.type_, FmtType::FMT_UNORM);
    assert_eq!((plane.width, plane.height), (64, 64));
    assert_eq!(plane.component_size, [8, 8, 8, 8]);
    assert_eq!(plane.component_pad, [0, 0, 0, 0]);
    assert_eq!(plane.component_map, [0, 1, 2, 3]);
    assert_eq!(plane.pixels.map(|p| p.len()), Some(16384));
    let mut tex = Tex::default(&gpu);
    plane.upload_plane(&mut tex, 0x6000);
    assert_eq!(tex.as_ptr(), 0x6000);
    assert_eq!(tex.device_ptr(), DEVICE);
}

#[test]
fn plane_data_baseline() {
    let plane = PlaneData::new();
    assert_eq!(plane.type_, FmtType::FMT_UNKNOWN);
    assert_eq!((plane.width, plane.height), (0, 0));
    assert_eq!(plane.component_size, [0; 4]);
    assert_eq!((plane.pixel_stride, plane.row_stride), (0, 0));
    assert!(plane.pixels.is_none());
    assert_eq!((plane.buf, plane.buf_offset), (0, 0));
    let buf = Buf::new(&Gpu::new(DEVICE), 0x7000);
    let with_buf = plane.buf(&buf).buf_offset(64).component_pad(&[0, 0, 0, 8]);
    assert_eq!((with_buf.buf, with_buf.buf_offset), (0x7000, 64));
    assert_eq!(with_buf.component_pad, [0, 0, 0, 8]);
}
