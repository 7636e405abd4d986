use vstd::prelude::*;

verus! {

/// Component type of a format.
#[allow(non_camel_case_types)]
#[derive(Clone, Copy, Debug, PartialEq, Eq, Structural)]
pub enum FmtType {
    FMT_UNKNOWN,
    FMT_UNORM,
    FMT_SNORM,
    FMT_UINT,
    FMT_SINT,
    FMT_FLOAT,
    FMT_TYPE_COUNT,
}

/// The variant whose native code is `n`, if any.
pub open spec fn fmt_type_of(n: u32) -> Option<FmtType> {
    if n == 0 {
        Some(FmtType::FMT_UNKNOWN)
    } else if n == 1 {
        Some(FmtType::FMT_UNORM)
    } else if n == 2 {
        Some(FmtType::FMT_SNORM)
    } else if n == 3 {
        Some(FmtType::FMT_UINT)
    } else if n == 4 {
        Some(FmtType::FMT_SINT)
    } else if n == 5 {
        Some(FmtType::FMT_FLOAT)
    } else if n == 6 {
        Some(FmtType::FMT_TYPE_COUNT)
    } else {
        None
    }
}

impl FmtType {
    /// Native code of the variant.
    pub open spec fn native(self) -> u32 {
        match self {
            FmtType::FMT_UNKNOWN => 0,
            FmtType::FMT_UNORM => 1,
            FmtType::FMT_SNORM => 2,
            FmtType::FMT_UINT => 3,
            FmtType::FMT_SINT => 4,
            FmtType::FMT_FLOAT => 5,
            FmtType::FMT_TYPE_COUNT => 6,
        }
    }

    /// The native code of this variant.
    pub fn to_native(&self) -> (r: u32)
        ensures
            r == self.native(),
    {
        match self {
            FmtType::FMT_UNKNOWN => 0,
            FmtType::FMT_UNORM => 1,
            FmtType::FMT_SNORM => 2,
            FmtType::FMT_UINT => 3,
            FmtType::FMT_SINT => 4,
            FmtType::FMT_FLOAT => 5,
            FmtType::FMT_TYPE_COUNT => 6,
        }
    }

    /// The variant that a native code stands for; `None` for an unknown code.
    pub fn from_native(n: u32) -> (r: Option<FmtType>)
        ensures
            r == fmt_type_of(n),
    {
        if n == 0 {
            Some(FmtType::FMT_UNKNOWN)
        } else if n == 1 {
            Some(FmtType::FMT_UNORM)
        } else if n == 2 {
            Some(FmtType::FMT_SNORM)
        } else if n == 3 {
            Some(FmtType::FMT_UINT)
        } else if n == 4 {
            Some(FmtType::FMT_SINT)
        } else if n == 5 {
            Some(FmtType::FMT_FLOAT)
        } else if n == 6 {
            Some(FmtType::FMT_TYPE_COUNT)
        } else {
            None
        }
    }
}

/// Every `FmtType` variant comes back from its native code, and a code
/// that decodes names the variant it decodes to.
pub proof fn lemma_fmt_type_round_trip(t: FmtType, n: u32)
    ensures
        fmt_type_of(t.native()) == Some(t),
        fmt_type_of(n) is Some ==> fmt_type_of(n)->0.native() == n,
{
}

/// Kind of a device buffer.
#[allow(non_camel_case_types)]
#[derive(Clone, Copy, Debug, PartialEq, Eq, Structural)]
pub enum BufType {
    BUF_INVALID,
    BUF_TEX_TRANSFER,
    BUF_UNIFORM,
    BUF_STORAGE,
    BUF_TEXEL_UNIFORM,
    BUF_TEXEL_STORAGE,
    BUF_PRIVATE,
    BUF_TYPE_COUNT,
}

/// The variant whose native code is `n`, if any.
pub open spec fn buf_type_of(n: u32) -> Option<BufType> {
    if n == 0 {
        Some(BufType::BUF_INVALID)
    } else if n == 1 {
        Some(BufType::BUF_TEX_TRANSFER)
    } else if n == 2 {
        Some(BufType::BUF_UNIFORM)
    } else if n == 3 {
        Some(BufType::BUF_STORAGE)
    } else if n == 4 {
        Some(BufType::BUF_TEXEL_UNIFORM)
    } else if n == 5 {
        Some(BufType::BUF_TEXEL_STORAGE)
    } else if n == 6 {
        Some(BufType::BUF_PRIVATE)
    } else if n == 7 {
        Some(BufType::BUF_TYPE_COUNT)
    } else {
        None
    }
}

impl BufType {
    /// Native code of the variant.
    pub open spec fn native(self) -> u32 {
        match self {
            BufType::BUF_INVALID => 0,
            BufType::BUF_TEX_TRANSFER => 1,
            BufType::BUF_UNIFORM => 2,
            BufType::BUF_STORAGE => 3,
            BufType::BUF_TEXEL_UNIFORM => 4,
            BufType::BUF_TEXEL_STORAGE => 5,
            BufType::BUF_PRIVATE => 6,
            BufType::BUF_TYPE_COUNT => 7,
        }
    }

    /// The native code of this variant.
    pub fn to_native(&self) -> (r: u32)
        ensures
            r == self.native(),
    {
        match self {
            BufType::BUF_INVALID => 0,
            BufType::BUF_TEX_TRANSFER => 1,
            BufType::BUF_UNIFORM => 2,
            BufType::BUF_STORAGE => 3,
            BufType::BUF_TEXEL_UNIFORM => 4,
            BufType::BUF_TEXEL_STORAGE => 5,
            BufType::BUF_PRIVATE => 6,
            BufType::BUF_TYPE_COUNT => 7,
        }
    }

    /// The variant that a native code stands for; `None` for an unknown code.
    pub fn from_native(n: u32) -> (r: Option<BufType>)
        ensures
            r == buf_type_of(n),
    {
        if n == 0 {
            Some(BufType::BUF_INVALID)
        } else if n == 1 {
            Some(BufType::BUF_TEX_TRANSFER)
        } else if n == 2 {
            Some(BufType::BUF_UNIFORM)
        } else if n == 3 {
            Some(BufType::BUF_STORAGE)
        } else if n == 4 {
            Some(BufType::BUF_TEXEL_UNIFORM)
        } else if n == 5 {
            Some(BufType::BUF_TEXEL_STORAGE)
        } else if n == 6 {
            Some(BufType::BUF_PRIVATE)
        } else if n == 7 {
            Some(BufType::BUF_TYPE_COUNT)
        } else {
            None
        }
    }
}

/// Every `BufType` variant comes back from its native code, and a code
/// that decodes names the variant it decodes to.
pub proof fn lemma_buf_type_round_trip(t: BufType, n: u32)
    ensures
        buf_type_of(t.native()) == Some(t),
        buf_type_of(n) is Some ==> buf_type_of(n)->0.native() == n,
{
}

/// Kind of operating-system handle through which a buffer can be shared.
#[allow(non_camel_case_types)]
#[derive(Clone, Copy, Debug, PartialEq, Eq, Structural)]
pub enum HandleType {
    HANDLE_FD,
    HANDLE_WIN32,
    HANDLE_WIN32_KMT,
    HANDLE_DMA_BUF,
}

/// The variant whose native code is `n`, if any.
pub open spec fn handle_type_of(n: u32) -> Option<HandleType> {
    if n == 1 {
        Some(HandleType::HANDLE_FD)
    } else if n == 2 {
        Some(HandleType::HANDLE_WIN32)
    } else if n == 4 {
        Some(HandleType::HANDLE_WIN32_KMT)
    } else if n == 8 {
        Some(HandleType::HANDLE_DMA_BUF)
    } else {
        None
    }
}

impl HandleType {
    /// Native code of the variant.
    pub open spec fn native(self) -> u32 {
        match self {
            HandleType::HANDLE_FD => 1,
            HandleType::HANDLE_WIN32 => 2,
            HandleType::HANDLE_WIN32_KMT => 4,
            HandleType::HANDLE_DMA_BUF => 8,
        }
    }

    /// The native code of this variant.
    pub fn to_native(&self) -> (r: u32)
        ensures
            r == self.native(),
    {
        match self {
            HandleType::HANDLE_FD => 1,
            HandleType::HANDLE_WIN32 => 2,
            HandleType::HANDLE_WIN32_KMT => 4,
            HandleType::HANDLE_DMA_BUF => 8,
        }
    }

    /// The variant that a native code stands for; `None` for an unknown code.
    pub fn from_native(n: u32) -> (r: Option<HandleType>)
        ensures
            r == handle_type_of(n),
    {
        if n == 1 {
            Some(HandleType::HANDLE_FD)
        } else if n == 2 {
            Some(HandleType::HANDLE_WIN32)
        } else if n == 4 {
            Some(HandleType::HANDLE_WIN32_KMT)
        } else if n == 8 {
            Some(HandleType::HANDLE_DMA_BUF)
        } else {
            None
        }
    }
}

/// Every `HandleType` variant comes back from its native code, and a code
/// that decodes names the variant it decodes to.
pub proof fn lemma_handle_type_round_trip(t: HandleType, n: u32)
    ensures
        handle_type_of(t.native()) == Some(t),
        handle_type_of(n) is Some ==> handle_type_of(n)->0.native() == n,
{
}

/// Preferred memory placement of a buffer.
#[allow(non_camel_case_types)]
#[derive(Clone, Copy, Debug, PartialEq, Eq, Structural)]
pub enum BufMemType {
    BUF_MEM_AUTO,
    BUF_MEM_HOST,
    BUF_MEM_DEVICE,
}

/// The variant whose native code is `n`, if any.
pub open spec fn buf_mem_type_of(n: u32) -> Option<BufMemType> {
    if n == 0 {
        Some(BufMemType::BUF_MEM_AUTO)
    } else if n == 1 {
        Some(BufMemType::BUF_MEM_HOST)
    } else if n == 2 {
        Some(BufMemType::BUF_MEM_DEVICE)
    } else {
        None
    }
}

impl BufMemType {
    /// Native code of the variant.
    pub open spec fn native(self) -> u32 {
        match self {
            BufMemType::BUF_MEM_AUTO => 0,
            BufMemType::BUF_MEM_HOST => 1,
            BufMemType::BUF_MEM_DEVICE => 2,
        }
    }

    /// The native code of this variant.
    pub fn to_native(&self) -> (r: u32)
        ensures
            r == self.native(),
    {
        match self {
            BufMemType::BUF_MEM_AUTO => 0,
            BufMemType::BUF_MEM_HOST => 1,
            BufMemType::BUF_MEM_DEVICE => 2,
        }
    }

    /// The variant that a native code stands for; `None` for an unknown code.
    pub fn from_native(n: u32) -> (r: Option<BufMemType>)
        ensures
            r == buf_mem_type_of(n),
    {
        if n == 0 {
            Some(BufMemType::BUF_MEM_AUTO)
        } else if n == 1 {
            Some(BufMemType::BUF_MEM_HOST)
        } else if n == 2 {
            Some(BufMemType::BUF_MEM_DEVICE)
        } else {
            None
        }
    }
}

/// Every `BufMemType` variant comes back from its native code, and a code
/// that decodes names the variant it decodes to.
pub proof fn lemma_buf_mem_type_round_trip(t: BufMemType, n: u32)
    ensures
        buf_mem_type_of(t.native()) == Some(t),
        buf_mem_type_of(n) is Some ==> buf_mem_type_of(n)->0.native() == n,
{
}

/// Filter used when a texture is sampled.
#[allow(non_camel_case_types)]
#[derive(Clone, Copy, Debug, PartialEq, Eq, Structural)]
pub enum SampleMode {
    TEX_SAMPLE_NEAREST,
    TEX_SAMPLE_LINEAR,
}

/// The variant whose native code is `n`, if any.
pub open spec fn sample_mode_of(n: u32) -> Option<SampleMode> {
    if n == 0 {
        Some(SampleMode::TEX_SAMPLE_NEAREST)
    } else if n == 1 {
        Some(SampleMode::TEX_SAMPLE_LINEAR)
    } else {
        None
    }
}

impl SampleMode {
    /// Native code of the variant.
    pub open spec fn native(self) -> u32 {
        match self {
            SampleMode::TEX_SAMPLE_NEAREST => 0,
            SampleMode::TEX_SAMPLE_LINEAR => 1,
        }
    }

    /// The native code of this variant.
    pub fn to_native(&self) -> (r: u32)
        ensures
            r == self.native(),
    {
        match self {
            SampleMode::TEX_SAMPLE_NEAREST => 0,
            SampleMode::TEX_SAMPLE_LINEAR => 1,
        }
    }

    /// The variant that a native code stands for; `None` for an unknown code.
    pub fn from_native(n: u32) -> (r: Option<SampleMode>)
        ensures
            r == sample_mode_of(n),
    {
        if n == 0 {
            Some(SampleMode::TEX_SAMPLE_NEAREST)
        } else if n == 1 {
            Some(SampleMode::TEX_SAMPLE_LINEAR)
        } else {
            None
        }
    }
}

/// Every `SampleMode` variant comes back from its native code, and a code
/// that decodes names the variant it decodes to.
pub proof fn lemma_sample_mode_round_trip(t: SampleMode, n: u32)
    ensures
        sample_mode_of(t.native()) == Some(t),
        sample_mode_of(n) is Some ==> sample_mode_of(n)->0.native() == n,
{
}

/// How texture coordinates outside the edge are resolved.
#[allow(non_camel_case_types)]
#[derive(Clone, Copy, Debug, PartialEq, Eq, Structural)]
pub enum AddressMode {
    TEX_ADDRESS_CLAMP,
    TEX_ADDRESS_REPEAT,
    TEX_ADDRESS_MIRROR,
}

/// The variant whose native code is `n`, if any.
pub open spec fn address_mode_of(n: u32) -> Option<AddressMode> {
    if n == 0 {
        Some(AddressMode::TEX_ADDRESS_CLAMP)
    } else if n == 1 {
        Some(AddressMode::TEX_ADDRESS_REPEAT)
    } else if n == 2 {
        Some(AddressMode::TEX_ADDRESS_MIRROR)
    } else {
        None
    }
}

impl AddressMode {
    /// Native code of the variant.
    pub open spec fn native(self) -> u32 {
        match self {
            AddressMode::TEX_ADDRESS_CLAMP => 0,
            AddressMode::TEX_ADDRESS_REPEAT => 1,
            AddressMode::TEX_ADDRESS_MIRROR => 2,
        }
    }

    /// The native code of this variant.
    pub fn to_native(&self) -> (r: u32)
        ensures
            r == self.native(),
    {
        match self {
            AddressMode::TEX_ADDRESS_CLAMP => 0,
            AddressMode::TEX_ADDRESS_REPEAT => 1,
            AddressMode::TEX_ADDRESS_MIRROR => 2,
        }
    }

    /// The variant that a native code stands for; `None` for an unknown code.
    pub fn from_native(n: u32) -> (r: Option<AddressMode>)
        ensures
            r == address_mode_of(n),
    {
        if n == 0 {
            Some(AddressMode::TEX_ADDRESS_CLAMP)
        } else if n == 1 {
            Some(AddressMode::TEX_ADDRESS_REPEAT)
        } else if n == 2 {
            Some(AddressMode::TEX_ADDRESS_MIRROR)
        } else {
            None
        }
    }
}

/// Every `AddressMode` variant comes back from its native code, and a code
/// that decodes names the variant it decodes to.
pub proof fn lemma_address_mode_round_trip(t: AddressMode, n: u32)
    ensures
        address_mode_of(t.native()) == Some(t),
        address_mode_of(n) is Some ==> address_mode_of(n)->0.native() == n,
{
}

} // verus!
