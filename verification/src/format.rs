//! Format descriptors: the logical layout of one stored element (channel
//! count and component numeric kind) and its mapping to the device-level
//! storage and transfer codes.

use vstd::prelude::*;

verus! {

/// Device code for a single-channel transfer of normalized or float data.
pub const GL_RED: u32 = 0x1903;
/// Device code for a two-channel transfer of normalized or float data.
pub const GL_RG: u32 = 0x8227;
/// Device code for a three-channel transfer of normalized or float data.
pub const GL_RGB: u32 = 0x1907;
/// Device code for a four-channel transfer of normalized or float data.
pub const GL_RGBA: u32 = 0x1908;
/// Device code for a single-channel transfer of integer data.
pub const GL_RED_INTEGER: u32 = 0x8D94;
/// Device code for a two-channel transfer of integer data.
pub const GL_RG_INTEGER: u32 = 0x8228;
/// Device code for a three-channel transfer of integer data.
pub const GL_RGB_INTEGER: u32 = 0x8D98;
/// Device code for a four-channel transfer of integer data.
pub const GL_RGBA_INTEGER: u32 = 0x8D99;

/// Device code for the 8-bit unsigned component type.
pub const GL_UNSIGNED_BYTE: u32 = 0x1401;
/// Device code for the 8-bit signed component type.
pub const GL_BYTE: u32 = 0x1400;
/// Device code for the 16-bit unsigned component type.
pub const GL_UNSIGNED_SHORT: u32 = 0x1403;
/// Device code for the 16-bit signed component type.
pub const GL_SHORT: u32 = 0x1402;
/// Device code for the 32-bit unsigned component type.
pub const GL_UNSIGNED_INT: u32 = 0x1405;
/// Device code for the 32-bit signed component type.
pub const GL_INT: u32 = 0x1404;
/// Device code for the 32-bit float component type.
pub const GL_FLOAT: u32 = 0x1406;

/// How many color channels one element of a stored image or buffer carries.
#[derive(Clone, Copy, PartialEq, Eq, Structural, Debug)]
pub enum ColorFormat {
    /// One channel per element.
    R,
    /// Two channels per element.
    RG,
    /// Three channels per element.
    RGB,
    /// Four channels per element.
    RGBA,
}

impl ColorFormat {
    /// Number of channels of this layout.
    pub open spec fn count_spec(self) -> usize {
        match self {
            ColorFormat::R => 1usize,
            ColorFormat::RG => 2usize,
            ColorFormat::RGB => 3usize,
            ColorFormat::RGBA => 4usize,
        }
    }

    /// Gets the number of channels.
    pub fn get_size(&self) -> (r: usize)
        ensures
            r == self.count_spec(),
            1 <= r <= 4,
    {
        match self {
            ColorFormat::R => 1,
            ColorFormat::RG => 2,
            ColorFormat::RGB => 3,
            ColorFormat::RGBA => 4,
        }
    }

    /// The channel layout with `n` channels.
    pub fn components(n: usize) -> (r: ColorFormat)
        requires
            1 <= n <= 4,
        ensures
            r.count_spec() == n,
    {
        match n {
            1 => ColorFormat::R,
            2 => ColorFormat::RG,
            3 => ColorFormat::RGB,
            _ => ColorFormat::RGBA,
        }
    }
}

/// The numeric kind of one component of an element.
#[derive(Clone, Copy, PartialEq, Eq, Structural, Debug)]
pub enum ComponentFormat {
    /// 8-bit unsigned integer.
    U8,
    /// 8-bit signed integer.
    I8,
    /// 16-bit unsigned integer.
    U16,
    /// 16-bit signed integer.
    I16,
    /// 32-bit unsigned integer.
    U32,
    /// 32-bit signed integer.
    I32,
    /// 32-bit float.
    F32,
}

impl ComponentFormat {
    /// Byte width of one component of this kind.
    pub open spec fn width_spec(self) -> usize {
        match self {
            ComponentFormat::U8 => 1usize,
            ComponentFormat::I8 => 1usize,
            ComponentFormat::U16 => 2usize,
            ComponentFormat::I16 => 2usize,
            ComponentFormat::U32 => 4usize,
            ComponentFormat::I32 => 4usize,
            ComponentFormat::F32 => 4usize,
        }
    }

    /// Gets the byte width of one component.
    pub fn get_size(&self) -> (r: usize)
        ensures
            r == self.width_spec(),
            1 <= r <= 4,
    {
        match self {
            ComponentFormat::U8 => 1,
            ComponentFormat::I8 => 1,
            ComponentFormat::U16 => 2,
            ComponentFormat::I16 => 2,
            ComponentFormat::U32 => 4,
            ComponentFormat::I32 => 4,
            ComponentFormat::F32 => 4,
        }
    }

    /// Device-level transfer type code of this component kind.
    pub open spec fn type_code_spec(self) -> u32 {
        match self {
            ComponentFormat::U8 => GL_UNSIGNED_BYTE,
            ComponentFormat::I8 => GL_BYTE,
            ComponentFormat::U16 => GL_UNSIGNED_SHORT,
            ComponentFormat::I16 => GL_SHORT,
            ComponentFormat::U32 => GL_UNSIGNED_INT,
            ComponentFormat::I32 => GL_INT,
            ComponentFormat::F32 => GL_FLOAT,
        }
    }
}

/// A format descriptor: channel layout together with component kind.
///
/// Its derived values (per-element byte size, device-level storage code,
/// device-level transfer format and type) are pure functions of the two
/// attributes; nothing is cached.
#[derive(Clone, Copy, PartialEq, Eq, Structural, Debug)]
pub struct TextureFormat(pub ColorFormat, pub ComponentFormat);

/// Device-level sized storage code for a channel layout and component kind.
pub open spec fn internal_format_spec(c: ColorFormat, k: ComponentFormat) -> u32 {
    match (c, k) {
        (ColorFormat::R, ComponentFormat::U8) => 0x8232u32,      // R8UI
        (ColorFormat::R, ComponentFormat::I8) => 0x8231u32,      // R8I
        (ColorFormat::R, ComponentFormat::U16) => 0x8234u32,     // R16UI
        (ColorFormat::R, ComponentFormat::I16) => 0x8233u32,     // R16I
        (ColorFormat::R, ComponentFormat::U32) => 0x8236u32,     // R32UI
        (ColorFormat::R, ComponentFormat::I32) => 0x8235u32,     // R32I
        (ColorFormat::R, ComponentFormat::F32) => 0x822Eu32,     // R32F
        (ColorFormat::RG, ComponentFormat::U8) => 0x8238u32,     // RG8UI
        (ColorFormat::RG, ComponentFormat::I8) => 0x8237u32,     // RG8I
        (ColorFormat::RG, ComponentFormat::U16) => 0x823Au32,    // RG16UI
        (ColorFormat::RG, ComponentFormat::I16) => 0x8239u32,    // RG16I
        (ColorFormat::RG, ComponentFormat::U32) => 0x823Cu32,    // RG32UI
        (ColorFormat::RG, ComponentFormat::I32) => 0x823Bu32,    // RG32I
        (ColorFormat::RG, ComponentFormat::F32) => 0x8230u32,    // RG32F
        (ColorFormat::RGB, ComponentFormat::U8) => 0x8D7Du32,    // RGB8UI
        (ColorFormat::RGB, ComponentFormat::I8) => 0x8D8Fu32,    // RGB8I
        (ColorFormat::RGB, ComponentFormat::U16) => 0x8D77u32,   // RGB16UI
        (ColorFormat::RGB, ComponentFormat::I16) => 0x8D89u32,   // RGB16I
        (ColorFormat::RGB, ComponentFormat::U32) => 0x8D71u32,   // RGB32UI
        (ColorFormat::RGB, ComponentFormat::I32) => 0x8D83u32,   // RGB32I
        (ColorFormat::RGB, ComponentFormat::F32) => 0x8815u32,   // RGB32F
        (ColorFormat::RGBA, ComponentFormat::U8) => 0x8D7Cu32,   // RGBA8UI
        (ColorFormat::RGBA, ComponentFormat::I8) => 0x8D8Eu32,   // RGBA8I
        (ColorFormat::RGBA, ComponentFormat::U16) => 0x8D76u32,  // RGBA16UI
        (ColorFormat::RGBA, ComponentFormat::I16) => 0x8D88u32,  // RGBA16I
        (ColorFormat::RGBA, ComponentFormat::U32) => 0x8D70u32,  // RGBA32UI
        (ColorFormat::RGBA, ComponentFormat::I32) => 0x8D82u32,  // RGBA32I
        (ColorFormat::RGBA, ComponentFormat::F32) => 0x8814u32,  // RGBA32F
    }
}

/// Device-level transfer format code for a channel layout and component kind:
/// float components transfer through the normalized/float codes, integer
/// components through the integer codes.
pub open spec fn transfer_format_spec(c: ColorFormat, k: ComponentFormat) -> u32 {
    if k == ComponentFormat::F32 {
        match c {
            ColorFormat::R => GL_RED,
            ColorFormat::RG => GL_RG,
            ColorFormat::RGB => GL_RGB,
            ColorFormat::RGBA => GL_RGBA,
        }
    } else {
        match c {
            ColorFormat::R => GL_RED_INTEGER,
            ColorFormat::RG => GL_RG_INTEGER,
            ColorFormat::RGB => GL_RGB_INTEGER,
            ColorFormat::RGBA => GL_RGBA_INTEGER,
        }
    }
}

impl TextureFormat {
    /// Creates a descriptor from a channel layout and a component kind.
    pub fn new(color: ColorFormat, component: ComponentFormat) -> (r: TextureFormat)
        ensures
            r == (TextureFormat(color, component)),
    {
        TextureFormat(color, component)
    }

    /// Gets the channel layout.
    pub fn get_color_format(&self) -> (r: ColorFormat)
        ensures
            r == self.0,
    {
        self.0
    }

    /// Gets the component kind.
    pub fn get_component_format(&self) -> (r: ComponentFormat)
        ensures
            r == self.1,
    {
        self.1
    }

    /// Byte size of one element: channel count times component byte width.
    pub open spec fn element_size_spec(self) -> int {
        self.0.count_spec() * self.1.width_spec()
    }

    /// Gets the byte size of one element.
    pub fn element_size(&self) -> (r: usize)
        ensures
            r == self.element_size_spec(),
            1 <= r <= 16,
    {
        self.0.get_size() * self.1.get_size()
    }

    /// Gets the device-level sized storage code of this descriptor.
    pub fn internal_format(&self) -> (r: u32)
        ensures
            r == internal_format_spec(self.0, self.1),
    {
        match (self.0, self.1) {
            (ColorFormat::R, ComponentFormat::U8) => 0x8232,
            (ColorFormat::R, ComponentFormat::I8) => 0x8231,
            (ColorFormat::R, ComponentFormat::U16) => 0x8234,
            (ColorFormat::R, ComponentFormat::I16) => 0x8233,
            (ColorFormat::R, ComponentFormat::U32) => 0x8236,
            (ColorFormat::R, ComponentFormat::I32) => 0x8235,
            (ColorFormat::R, ComponentFormat::F32) => 0x822E,
            (ColorFormat::RG, ComponentFormat::U8) => 0x8238,
            (ColorFormat::RG, ComponentFormat::I8) => 0x8237,
            (ColorFormat::RG, ComponentFormat::U16) => 0x823A,
            (ColorFormat::RG, ComponentFormat::I16) => 0x8239,
            (ColorFormat::RG, ComponentFormat::U32) => 0x823C,
            (ColorFormat::RG, ComponentFormat::I32) => 0x823B,
            (ColorFormat::RG, ComponentFormat::F32) => 0x8230,
            (ColorFormat::RGB, ComponentFormat::U8) => 0x8D7D,
            (ColorFormat::RGB, ComponentFormat::I8) => 0x8D8F,
            (ColorFormat::RGB, ComponentFormat::U16) => 0x8D77,
            (ColorFormat::RGB, ComponentFormat::I16) => 0x8D89,
            (ColorFormat::RGB, ComponentFormat::U32) => 0x8D71,
            (ColorFormat::RGB, ComponentFormat::I32) => 0x8D83,
            (ColorFormat::RGB, ComponentFormat::F32) => 0x8815,
            (ColorFormat::RGBA, ComponentFormat::U8) => 0x8D7C,
            (ColorFormat::RGBA, ComponentFormat::I8) => 0x8D8E,
            (ColorFormat::RGBA, ComponentFormat::U16) => 0x8D76,
            (ColorFormat::RGBA, ComponentFormat::I16) => 0x8D88,
            (ColorFormat::RGBA, ComponentFormat::U32) => 0x8D70,
            (ColorFormat::RGBA, ComponentFormat::I32) => 0x8D82,
            (ColorFormat::RGBA, ComponentFormat::F32) => 0x8814,
        }
    }

    /// Gets the device-level transfer format and transfer type pair of this
    /// descriptor.
    pub fn get_format_type(&self) -> (r: (u32, u32))
        ensures
            r.0 == transfer_format_spec(self.0, self.1),
            r.1 == self.1.type_code_spec(),
    {
        let format: u32 = if matches!(self.1, ComponentFormat::F32) {
            match self.0 {
                ColorFormat::R => GL_RED,
                ColorFormat::RG => GL_RG,
                ColorFormat::RGB => GL_RGB,
                ColorFormat::RGBA => GL_RGBA,
            }
        } else {
            match self.0 {
                ColorFormat::R => GL_RED_INTEGER,
                ColorFormat::RG => GL_RG_INTEGER,
                ColorFormat::RGB => GL_RGB_INTEGER,
                ColorFormat::RGBA => GL_RGBA_INTEGER,
            }
        };
        let ty: u32 = match self.1 {
            ComponentFormat::U8 => GL_UNSIGNED_BYTE,
            ComponentFormat::I8 => GL_BYTE,
            ComponentFormat::U16 => GL_UNSIGNED_SHORT,
            ComponentFormat::I16 => GL_SHORT,
            ComponentFormat::U32 => GL_UNSIGNED_INT,
            ComponentFormat::I32 => GL_INT,
            ComponentFormat::F32 => GL_FLOAT,
        };
        (format, ty)
    }
}

/// Law: for every valid pair of channel layout and component kind, the
/// per-element byte size equals the per-channel byte width times the channel
/// count.
pub proof fn lemma_element_size(f: TextureFormat)
    ensures
        f.element_size_spec() == f.0.count_spec() * f.1.width_spec(),
        1 <= f.element_size_spec() <= 16,
{
}

} // verus!
