use crate::gl::GLTextureParam;
use vstd::prelude::*;

verus! {

/// One instruction to the graphics device.
///
/// The renderer decides; whoever owns the device carries the decisions out,
/// in order. Objects of the device are named by handles that the renderer
/// hands out itself: a `Create*` instruction introduces a handle, later
/// instructions refer to it, a `Delete*` instruction retires it. Handle 0
/// names no object (for a framebuffer: the output surface). Bulk data and
/// names are not part of an instruction: `blob` and `name` are positions in
/// the `blobs` and `names` of the `CommandList` that holds the instruction.
/// Numbers called "bits" are IEEE-754 single precision bit patterns.
#[derive(Debug, PartialEq, Eq, Structural, Clone, Copy)]
pub enum GpuCommand {
    Enable { capability: u32 },
    DeleteTexture { texture: u32 },
    DeleteBuffer { buffer: u32 },
    DeleteFramebuffer { framebuffer: u32 },
    DeleteVertexArray { vertex_array: u32 },
    DeleteProgram { program: u32 },
    DeleteShader { shader: u32 },
    CreateVertexArray { vertex_array: u32 },
    CreateFramebuffer { framebuffer: u32 },
    /// Allocates a two-dimensional texture with its mipmaps; `zeroed` asks for
    /// all-zero content.
    CreateTexture2D { texture: u32, params: GLTextureParam, width: u32, height: u32, zeroed: bool },
    /// Allocates a three-dimensional texture with its mipmaps.
    CreateTexture3D { texture: u32, params: GLTextureParam, width: u32, height: u32, depth: u32 },
    CreateCubemap { texture: u32 },
    AttachColor { framebuffer: u32, index: usize, texture: u32 },
    AttachDepth { framebuffer: u32, texture: u32 },
    /// Routes the fragment outputs 0 to `count - 1` to the colour attachments.
    DrawBuffers { framebuffer: u32, count: usize },
    /// The framebuffer must be complete; if it is not, that is fatal.
    CheckFramebuffer { framebuffer: u32 },
    /// Allocates three pixel transfer buffers of `size` bytes each.
    CreatePixelBuffers { first: u32, second: u32, third: u32, size: u128 },
    UploadPixelBuffer { buffer: u32, blob: usize },
    UploadTexture3D {
        texture: u32,
        params: GLTextureParam,
        width: u32,
        height: u32,
        depth: u32,
        blob: usize,
    },
    UploadCubemapFace {
        texture: u32,
        face: u32,
        params: GLTextureParam,
        width: u32,
        height: u32,
        blob: usize,
    },
    GenerateMipmap { target: u32, texture: u32 },
    /// Copies a region from a pixel transfer buffer into a texture and renews
    /// the texture's mipmaps.
    TransferPixelBuffer {
        buffer: u32,
        target: u32,
        texture: u32,
        xoffset: u32,
        yoffset: u32,
        subwidth: u32,
        subheight: u32,
        format: u32,
        data_type: u32,
    },
    CreateUniformBuffer { buffer: u32, size: usize },
    /// Binds the uniform block `name` of a program to a binding point, and the
    /// buffer to the same point. Does nothing if the program has no such block.
    ConnectUniformBuffer { buffer: u32, program: u32, name: usize, index: usize },
    UploadUniformBuffer { buffer: u32, blob: usize },
    BindVertexArray { vertex_array: u32 },
    /// Makes a framebuffer the render target, with the viewport at its size.
    BindFramebuffer { framebuffer: u32, width: u32, height: u32 },
    ClearColor { red: u32, green: u32, blue: u32, alpha: u32 },
    ClearDepth { depth: u32 },
    Clear { color: bool, depth: bool },
    UseProgram { program: u32 },
    /// Sets a three-component uniform to width, height and width over height.
    SetResolution { location: i32, width: u32, height: u32 },
    SetVertexCount { location: i32, count: u64 },
    SetUniform1 { program: u32, name: usize, x: u32 },
    SetUniform2 { program: u32, name: usize, x: u32, y: u32 },
    SetUniform3 { program: u32, name: usize, x: u32, y: u32, z: u32 },
    SetUniform4 { program: u32, name: usize, x: u32, y: u32, z: u32, w: u32 },
    /// Binds a texture to a texture unit, sets how it wraps and filters, and
    /// points the sampler uniform at the unit.
    ///
    /// `wrap_r` counts only where `wrap_depth` is set, that is for targets
    /// with a third texture coordinate.
    BindSampler {
        unit: usize,
        target: u32,
        texture: u32,
        wrap_s: u32,
        wrap_t: u32,
        wrap_r: u32,
        wrap_depth: bool,
        min_filter: u32,
        mag_filter: u32,
        location: i32,
    },
    /// Sets a sampler's resolution uniform: width, height and, for a
    /// three-dimensional target, depth; for other targets, width over height.
    SetSamplerResolution { location: i32, target: u32, width: u32, height: u32, depth: u32 },
    /// Sets a sampler's playback time uniform, given in nanoseconds.
    SetSamplerTime { location: i32, time: u64 },
    Blend { src_rgb: u32, dst_rgb: u32, src_alpha: u32, dst_alpha: u32 },
    NoBlend,
    DepthTest { func: u32 },
    NoDepthTest,
    DepthMask { write: bool },
    DrawArrays { mode: u32, count: u64 },
    /// Renews the mipmaps of the two-dimensional texture on a texture unit and
    /// takes the unit's texture off the target.
    UnbindSampler { unit: usize, target: u32 },
}

/// Instructions with the data that they refer to.
#[derive(Debug)]
pub struct CommandList {
    pub commands: Vec<GpuCommand>,
    pub blobs: Vec<Vec<u8>>,
    pub names: Vec<String>,
}

impl CommandList {
    pub fn new() -> (list: CommandList)
        ensures
            list.commands@.len() == 0,
            list.blobs@.len() == 0,
            list.names@.len() == 0,
    {
        CommandList { commands: Vec::new(), blobs: Vec::new(), names: Vec::new() }
    }
}

/// The handle that follows `handle`: handles run from 1 to the largest 32-bit
/// number and then start again at 1, so that 0 is never handed out.
pub open spec fn next_handle(handle: u32) -> u32 {
    if handle == u32::MAX {
        1
    } else {
        (handle + 1) as u32
    }
}

/// The handle `n` steps after `handle`.
pub open spec fn handle_after(handle: u32, n: nat) -> u32
    decreases n,
{
    if n == 0 {
        handle
    } else {
        next_handle(handle_after(handle, (n - 1) as nat))
    }
}

/// Hands out handles, one after the other.
#[derive(Debug)]
pub struct HandlePool {
    pub next: u32,
}

impl HandlePool {
    pub fn new() -> (pool: HandlePool)
        ensures
            pool.next == 1,
    {
        HandlePool { next: 1 }
    }

    /// Takes the next handle.
    pub fn fresh(&mut self) -> (handle: u32)
        ensures
            handle == old(self).next,
            final(self).next == next_handle(old(self).next),
    {
        let handle = self.next;
        self.next = if handle == u32::MAX {
            1
        } else {
            handle + 1
        };
        handle
    }
}

/// Steps along the handles add up.
pub proof fn lemma_handle_after_adds(handle: u32, a: nat, b: nat)
    ensures
        handle_after(handle, a + b) == handle_after(handle_after(handle, a), b),
    decreases b,
{
    if b > 0 {
        lemma_handle_after_adds(handle, a, (b - 1) as nat);
        assert(a + b - 1 == a + (b - 1) as nat);
    }
}

/// The handles go round: after the largest comes 1 again, so from a handle
/// that is not 0 the handle `n` steps on is found by counting modulo the
/// number of handles.
pub proof fn lemma_handle_after_counts(handle: u32, n: nat)
    requires
        handle >= 1,
    ensures
        handle_after(handle, n) == (handle - 1 + n) % (u32::MAX as int) + 1,
    decreases n,
{
    let m = u32::MAX as int;
    if n == 0 {
        vstd::arithmetic::div_mod::lemma_fundamental_div_mod_converse(
            handle - 1,
            m,
            0,
            handle - 1,
        );
    } else {
        lemma_handle_after_counts(handle, (n - 1) as nat);
        let x = handle - 1 + n - 1;
        let q = x / m;
        let r = x % m;
        vstd::arithmetic::div_mod::lemma_fundamental_div_mod(x, m);
        vstd::arithmetic::div_mod::lemma_mod_pos_bound(x, m);
        assert(m * q == q * m) by (nonlinear_arith);
        if r + 1 < m {
            vstd::arithmetic::div_mod::lemma_fundamental_div_mod_converse(x + 1, m, q, r + 1);
        } else {
            assert((q + 1) * m == q * m + m) by (nonlinear_arith);
            vstd::arithmetic::div_mod::lemma_fundamental_div_mod_converse(x + 1, m, q + 1, 0);
        }
    }
}

/// Two handles that were handed out one after the other differ, unless the
/// handles have gone round a whole number of times between them.
pub proof fn lemma_handles_differ(handle: u32, a: nat, b: nat)
    requires
        1 <= a <= b,
        (b - a) % (u32::MAX as int) != 0,
    ensures
        handle_after(handle, a) != handle_after(handle, b),
{
    let m = u32::MAX as int;
    let one = handle_after(handle, 1);
    assert(handle_after(handle, 0) == handle);
    assert(one == next_handle(handle));
    lemma_handle_after_adds(handle, 1, (a - 1) as nat);
    lemma_handle_after_adds(handle, 1, (b - 1) as nat);
    assert(1 + (a - 1) as nat == a);
    assert(1 + (b - 1) as nat == b);
    lemma_handle_after_counts(one, (a - 1) as nat);
    lemma_handle_after_counts(one, (b - 1) as nat);
    vstd::arithmetic::div_mod::lemma_mod_equivalence(one - 1 + b - 1, one - 1 + a - 1, m);
    assert((one - 1 + b - 1) - (one - 1 + a - 1) == b - a);
}

} // verus!
