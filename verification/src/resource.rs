use crate::config::TextureFormat;
use vstd::prelude::*;

verus! {

/// One update of a resource, as a resource stream hands it to the renderer.
#[derive(Debug, Clone)]
pub enum ResourceData {
    D2(ResourceData2D),
    D3(ResourceData3D),
    Cube(Vec<(ResourceCubemapFace, ResourceData2D)>),
}

/// Pixels for a region of a two-dimensional texture.
#[derive(Debug, Clone)]
pub struct ResourceData2D {
    pub bytes: Vec<u8>,
    pub width: u32,
    pub height: u32,
    pub format: TextureFormat,
    /// The region that `bytes` fills: its corner and its size.
    pub xoffset: u32,
    pub yoffset: u32,
    pub subwidth: u32,
    pub subheight: u32,
    /// The playback position that the pixels belong to, in nanoseconds; `None`
    /// leaves the resource's playback time as it is.
    pub time: Option<u64>,
}

/// Pixels for a region of a three-dimensional texture.
#[derive(Debug, Clone)]
pub struct ResourceData3D {
    pub bytes: Vec<u8>,
    pub width: u32,
    pub height: u32,
    pub depth: u32,
    pub format: TextureFormat,
    pub xoffset: u32,
    pub yoffset: u32,
    pub zoffset: u32,
    pub subwidth: u32,
    pub subheight: u32,
    pub subdepth: u32,
    /// As for two-dimensional data.
    pub time: Option<u64>,
}

#[derive(Debug, PartialEq, Eq, Structural, Copy, Clone)]
pub enum ResourceCubemapFace {
    Right,
    Left,
    Top,
    Bottom,
    Front,
    Back,
}

} // verus!
