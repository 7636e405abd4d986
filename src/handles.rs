use vstd::prelude::*;

use crate::params::TexParams;

verus! {

/// Non-owning view of a device. Copies share the device; none releases it.
#[derive(Clone, Copy, Debug)]
pub struct Gpu {
    gpu: usize,
}

impl Gpu {
    /// Address of the device.
    pub closed spec fn id(&self) -> usize {
        self.gpu
    }

    /// View of the device at address `device`, as handed out by a Vulkan context.
    pub fn new(device: usize) -> (r: Gpu)
        ensures
            r.id() == device,
    {
        Gpu { gpu: device }
    }

    /// Address of the device.
    pub fn as_ptr(&self) -> (r: usize)
        ensures
            r == self.id(),
    {
        self.gpu
    }
}

/// Non-owning view of a format descriptor owned by a device; address `0` is
/// the "not found" answer of a query.
#[derive(Clone, Copy, Debug)]
pub struct Fmt {
    fmt: usize,
}

impl Fmt {
    /// Address of the format descriptor.
    pub closed spec fn id(&self) -> usize {
        self.fmt
    }

    /// View of the format descriptor at address `fmt`, as a query returned it.
    pub fn create_struct(fmt: usize) -> (r: Fmt)
        ensures
            r.id() == fmt,
    {
        Fmt { fmt }
    }

    /// Whether the query that gave this format found none.
    pub fn is_null(&self) -> (r: bool)
        ensures
            r == (self.id() == 0),
    {
        self.fmt == 0
    }

    /// Address of the format descriptor.
    pub fn as_ptr(&self) -> (r: usize)
        ensures
            r == self.id(),
    {
        self.fmt
    }
}

/// Exclusive owner of a device buffer, with the device that must release it.
#[derive(Debug)]
pub struct Buf {
    buf: usize,
    gpu: usize,
}

impl Buf {
    /// An owned buffer is never the null handle.
    #[verifier::type_invariant]
    closed spec fn inv(&self) -> bool {
        self.buf != 0
    }

    /// Address of the buffer.
    pub closed spec fn id(&self) -> usize {
        self.buf
    }

    /// Address of the device that created the buffer.
    pub closed spec fn device(&self) -> usize {
        self.gpu
    }

    /// Takes ownership of the buffer at address `created`, which device `gpu`
    /// has just created.
    pub fn new(gpu: &Gpu, created: usize) -> (r: Buf)
        requires
            created != 0,
        ensures
            r.id() == created,
            r.id() != 0,
            r.device() == gpu.id(),
    {
        Buf { buf: created, gpu: gpu.gpu }
    }

    /// Address of the buffer.
    pub fn as_ptr(&self) -> (r: usize)
        ensures
            r == self.id(),
    {
        self.buf
    }

    /// Address of the device that created the buffer.
    pub fn device_ptr(&self) -> (r: usize)
        ensures
            r == self.device(),
    {
        self.gpu
    }

    /// Gives up ownership: the device that must release the buffer, and the
    /// buffer. The value is consumed, so a buffer is handed out for release once.
    pub fn release(self) -> (r: (usize, usize))
        ensures
            r == (self.device(), self.id()),
            r.1 != 0,
    {
        proof {
            use_type_invariant(&self);
        }
        (self.gpu, self.buf)
    }
}

/// Exclusive owner of a device texture, with the device that must release it
/// and the parameters it was last made with. Address `0` is the empty texture.
#[derive(Debug)]
pub struct Tex {
    tex: usize,
    gpu: usize,
    params: Option<TexParams>,
}

impl Tex {
    /// Address of the texture.
    pub closed spec fn id(&self) -> usize {
        self.tex
    }

    /// Address of the device the texture belongs to.
    pub closed spec fn device(&self) -> usize {
        self.gpu
    }

    /// Parameters of the current texture, where they are known.
    pub closed spec fn params_spec(&self) -> Option<TexParams> {
        self.params
    }

    /// What releasing or invalidating the texture hands to the device: the
    /// device and the texture, or nothing for the empty texture.
    pub open spec fn target(&self) -> Option<(usize, usize)> {
        if self.id() == 0 {
            None
        } else {
            Some((self.device(), self.id()))
        }
    }

    /// The empty texture on device `gpu`, to be filled in place later.
    pub fn default(gpu: &Gpu) -> (r: Tex)
        ensures
            r.id() == 0,
            r.device() == gpu.id(),
            r.params_spec() is None,
    {
        Tex { tex: 0, gpu: gpu.gpu, params: None }
    }

    /// Takes ownership of the texture at address `created`, which device `gpu`
    /// has just created from `params`.
    pub fn new(gpu: &Gpu, params: &TexParams, created: usize) -> (r: Tex)
        requires
            created != 0,
        ensures
            r.id() == created,
            r.id() != 0,
            r.device() == gpu.id(),
            r.params_spec() == Some(*params),
    {
        Tex { tex: created, gpu: gpu.gpu, params: Some(*params) }
    }

    /// Swaps in the texture at address `created` that the device has just
    /// made from `params` (`0` where it made none). On success the texture
    /// holds the replacement and hands back its former contents to release
    /// (`None` where it was empty); on failure nothing changes, and the
    /// current texture stays owned and valid. Returns whether the swap took
    /// place, with what is to be released.
    pub fn tex_recreate(&mut self, params: &TexParams, created: usize) -> (r: (
        bool,
        Option<(usize, usize)>,
    ))
        ensures
            r.0 == (created != 0),
            final(self).device() == old(self).device(),
            r.0 ==> final(self).id() == created,
            r.0 ==> final(self).params_spec() == Some(*params),
            r.0 ==> final(self).target() == Some((old(self).device(), created)),
            r.0 ==> r.1 == old(self).target(),
            !r.0 ==> final(self).id() == old(self).id(),
            !r.0 ==> final(self).params_spec() == old(self).params_spec(),
            !r.0 ==> r.1 is None,
    {
        if created == 0 {
            (false, None)
        } else {
            let former = if self.tex == 0 {
                None
            } else {
                Some((self.gpu, self.tex))
            };
            self.tex = created;
            self.params = Some(*params);
            (true, former)
        }
    }

    /// The device and texture to hand to an invalidation, or `None` for the
    /// empty texture, which has no contents to discard.
    pub fn tex_invalidate(&self) -> (r: Option<(usize, usize)>)
        ensures
            r == self.target(),
    {
        if self.tex == 0 {
            None
        } else {
            Some((self.gpu, self.tex))
        }
    }

    /// Records the texture at address `produced` that a plane upload has
    /// created or refilled in place of the current one.
    pub fn set_uploaded(&mut self, produced: usize)
        requires
            produced != 0,
        ensures
            final(self).id() == produced,
            final(self).device() == old(self).device(),
            final(self).params_spec() is None,
    {
        self.tex = produced;
        self.params = None;
    }

    /// Address of the texture.
    pub fn as_ptr(&self) -> (r: usize)
        ensures
            r == self.id(),
    {
        self.tex
    }

    /// Address of the device the texture belongs to.
    pub fn device_ptr(&self) -> (r: usize)
        ensures
            r == self.device(),
    {
        self.gpu
    }

    /// Parameters of the current texture, where they are known.
    pub fn params(&self) -> (r: Option<TexParams>)
        ensures
            r == self.params_spec(),
    {
        self.params
    }

    /// Gives up ownership: the device and the texture to release, or `None`
    /// for the empty texture, whose release does nothing. The value is
    /// consumed, so a texture is handed out for release once.
    pub fn release(self) -> (r: Option<(usize, usize)>)
        ensures
            r == self.target(),
    {
        if self.tex == 0 {
            None
        } else {
            Some((self.gpu, self.tex))
        }
    }
}

/// The empty texture hands nothing to the device, neither for release nor
/// for invalidation.
pub proof fn lemma_empty_texture_has_no_target(t: &Tex)
    requires
        t.id() == 0,
    ensures
        t.target() is None,
{
}

} // verus!
