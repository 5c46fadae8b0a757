//! Planning of the user-interface pass: which draw list commands become
//! draws, with which index range, scissor rectangle and texture.
//!
//! All coordinates are whole framebuffer pixels.

use vstd::prelude::*;
use crate::vertex::{InputStepMode, VertexAttributeDescriptor, VertexBuffer, VertexFormat};
use crate::words::Vector2;

verus! {

/// One vertex of the user interface: position and texture coordinate in two
/// words each, and a color of four bytes.
#[derive(Clone, Copy, Debug, PartialEq, Eq, Structural)]
pub struct UiVertex {
    pub position: Vector2,
    pub uv: Vector2,
    pub color: u32,
}

impl VertexBuffer for UiVertex {
    open spec fn attributes() -> Seq<VertexAttributeDescriptor> {
        seq![
            VertexAttributeDescriptor { offset: 0, format: VertexFormat::Float2, shader_location: 0 },
            VertexAttributeDescriptor { offset: 8, format: VertexFormat::Float2, shader_location: 1 },
            VertexAttributeDescriptor { offset: 16, format: VertexFormat::Uint, shader_location: 2 },
        ]
    }

    open spec fn stride() -> nat {
        20
    }

    open spec fn step_mode() -> InputStepMode {
        InputStepMode::Vertex
    }

    proof fn lemma_packed() {
    }

    fn get_attributes() -> (attributes: Vec<VertexAttributeDescriptor>) {
        let mut attributes: Vec<VertexAttributeDescriptor> = Vec::new();
        attributes.push(VertexAttributeDescriptor { offset: 0, format: VertexFormat::Float2, shader_location: 0 });
        attributes.push(VertexAttributeDescriptor { offset: 8, format: VertexFormat::Float2, shader_location: 1 });
        attributes.push(VertexAttributeDescriptor { offset: 16, format: VertexFormat::Uint, shader_location: 2 });
        assert(attributes@ =~= Self::attributes());
        attributes
    }
}

/// The texture id that stands for the font atlas.
pub const FONT_TEXTURE_ID: usize = usize::MAX;

/// The texture of a user-interface draw.
#[derive(Clone, Copy, Debug, PartialEq, Eq, Structural)]
pub enum UiTextureRef {
    /// The font atlas.
    Font,
    /// A texture that was registered under this id.
    Registered(usize),
}

/// A clip rectangle in framebuffer pixels: left, top, right, bottom.
#[derive(Clone, Copy, Debug, PartialEq, Eq, Structural)]
pub struct ClipRect {
    pub x0: i32,
    pub y0: i32,
    pub x1: i32,
    pub y1: i32,
}

/// The part of the framebuffer that a draw may touch.
#[derive(Clone, Copy, Debug, PartialEq, Eq, Structural)]
pub struct Scissor {
    pub x: u32,
    pub y: u32,
    pub width: u32,
    pub height: u32,
}

/// One command of a draw list.
#[derive(Clone, Copy, Debug, PartialEq, Eq, Structural)]
pub enum UiCommand {
    /// Draw `count` indices starting at `idx_offset`, with vertex indices
    /// counted from `vtx_offset`.
    Elements { count: usize, clip_rect: ClipRect, texture_id: usize, vtx_offset: usize, idx_offset: usize },
    /// Restore the render state of the pass.
    ResetRenderState,
    /// Call back into the toolkit.
    RawCallback,
}

/// What the pass does for one command.
#[derive(Clone, Copy, Debug, PartialEq, Eq, Structural)]
pub enum UiDraw {
    /// An indexed draw of indices `first_index..end_index`.
    Elements { first_index: u32, end_index: u32, base_vertex: u32, scissor: Scissor, texture: UiTextureRef },
    /// The callback of command `command` is due.
    Callback { command: usize },
}

/// Why a draw list cannot be drawn.
#[derive(Clone, Copy, Debug, PartialEq, Eq, Structural)]
pub enum UiError {
    /// The framebuffer has no pixels.
    EmptyFrame,
    /// Command `command` names a texture that was never registered.
    UnknownTexture { command: usize, texture_id: usize },
    /// The index range or the vertex offset of command `command` does not
    /// fit into 32 bits.
    OutOfRange { command: usize },
}

/// Whether a clip rectangle meets a framebuffer of the given size.
pub open spec fn visible(clip: ClipRect, width: u32, height: u32) -> bool {
    clip.x0 < width && clip.y0 < height && clip.x1 >= 0 && clip.y1 >= 0
}

/// The scissor rectangle of a clip rectangle: the part of the clip rectangle
/// that lies inside a framebuffer of the given size. A rectangle that has no
/// such part, or whose corners stand the wrong way round, has extent zero.
pub open spec fn scissor_of(clip: ClipRect, width: u32, height: u32) -> Scissor {
    let left = if clip.x0 < 0 { 0int } else { clip.x0 as int };
    let top = if clip.y0 < 0 { 0int } else { clip.y0 as int };
    let right = if clip.x1 < width { clip.x1 as int } else { width as int };
    let bottom = if clip.y1 < height { clip.y1 as int } else { height as int };
    Scissor {
        x: left as u32,
        y: top as u32,
        width: if right > left { (right - left) as u32 } else { 0u32 },
        height: if bottom > top { (bottom - top) as u32 } else { 0u32 },
    }
}

/// The scissor rectangle of a visible clip rectangle lies inside the
/// framebuffer and inside the clip rectangle.
pub proof fn lemma_scissor_inside(clip: ClipRect, width: u32, height: u32)
    requires
        visible(clip, width, height),
    ensures
        scissor_of(clip, width, height).x + scissor_of(clip, width, height).width <= width,
        scissor_of(clip, width, height).y + scissor_of(clip, width, height).height <= height,
        clip.x0 <= scissor_of(clip, width, height).x,
        clip.y0 <= scissor_of(clip, width, height).y,
        scissor_of(clip, width, height).width > 0 ==> scissor_of(clip, width, height).x + scissor_of(
            clip,
            width,
            height,
        ).width <= clip.x1,
        scissor_of(clip, width, height).height > 0 ==> scissor_of(clip, width, height).y + scissor_of(
            clip,
            width,
            height,
        ).height <= clip.y1,
{
}

/// The texture behind a texture id, if there is one.
pub open spec fn texture_of(textures: Seq<usize>, texture_id: usize) -> Option<UiTextureRef> {
    if texture_id == FONT_TEXTURE_ID {
        Some(UiTextureRef::Font)
    } else if textures.contains(texture_id) {
        Some(UiTextureRef::Registered(texture_id))
    } else {
        None
    }
}

/// What one command asks of the pass: a draw, nothing, or an error.
pub open spec fn planned(textures: Seq<usize>, width: u32, height: u32, command: UiCommand, at: usize) -> Result<
    Option<UiDraw>,
    UiError,
> {
    match command {
        UiCommand::Elements { count, clip_rect, texture_id, vtx_offset, idx_offset } => {
            if !visible(clip_rect, width, height) {
                Ok(None)
            } else if texture_of(textures, texture_id) is None {
                Err(UiError::UnknownTexture { command: at, texture_id })
            } else if idx_offset + count > u32::MAX || vtx_offset > u32::MAX {
                Err(UiError::OutOfRange { command: at })
            } else {
                Ok(
                    Some(
                        UiDraw::Elements {
                            first_index: idx_offset as u32,
                            end_index: (idx_offset + count) as u32,
                            base_vertex: vtx_offset as u32,
                            scissor: scissor_of(clip_rect, width, height),
                            texture: texture_of(textures, texture_id)->0,
                        },
                    ),
                )
            }
        },
        UiCommand::ResetRenderState => Ok(None),
        UiCommand::RawCallback => Ok(Some(UiDraw::Callback { command: at })),
    }
}

/// The draws of the first `n` commands, in order; `None` where one of them
/// fails.
pub open spec fn planned_upto(
    textures: Seq<usize>,
    width: u32,
    height: u32,
    commands: Seq<UiCommand>,
    n: int,
) -> Option<Seq<UiDraw>>
    decreases n,
{
    if n <= 0 {
        Some(Seq::empty())
    } else {
        match planned_upto(textures, width, height, commands, n - 1) {
            None => None,
            Some(draws) => match planned(textures, width, height, commands[n - 1], (n - 1) as usize) {
                Err(_) => None,
                Ok(None) => Some(draws),
                Ok(Some(draw)) => Some(draws.push(draw)),
            },
        }
    }
}

/// That command `at` is the first that fails, and fails with `error`.
pub open spec fn first_failure(
    textures: Seq<usize>,
    width: u32,
    height: u32,
    commands: Seq<UiCommand>,
    at: int,
    error: UiError,
) -> bool {
    &&& 0 <= at < commands.len()
    &&& planned_upto(textures, width, height, commands, at) is Some
    &&& planned(textures, width, height, commands[at], at as usize) == Err::<Option<UiDraw>, UiError>(
        error,
    )
}

/// The user-interface pass: it knows which textures are registered.
pub struct UiPass {
    /// The ids of the registered textures.
    pub textures: Vec<usize>,
}

impl UiPass {
    /// A pass that knows the font atlas only.
    pub fn new() -> (pass: UiPass)
        ensures
            pass.textures@.len() == 0,
    {
        UiPass { textures: Vec::new() }
    }

    /// Finds the texture of a draw: the font atlas for the reserved id, a
    /// registered texture for its id, an error for anything else.
    pub fn lookup_texture(&self, texture_id: usize) -> (texture: Option<UiTextureRef>)
        ensures
            texture == texture_of(self.textures@, texture_id),
    {
        if texture_id == FONT_TEXTURE_ID {
            return Some(UiTextureRef::Font);
        }
        let mut i: usize = 0;
        while i < self.textures.len()
            invariant
                i <= self.textures@.len(),
                texture_id != FONT_TEXTURE_ID,
                forall|j: int| 0 <= j < i ==> self.textures@[j] != texture_id,
            decreases self.textures.len() - i,
        {
            if self.textures[i] == texture_id {
                assert(self.textures@[i as int] == texture_id);
                return Some(UiTextureRef::Registered(texture_id));
            }
            i = i + 1;
        }
        None
    }

    /// Plans the draws of one draw list for a framebuffer of `width` by
    /// `height` pixels.
    ///
    /// A command whose clip rectangle misses the framebuffer draws nothing.
    /// The first command that cannot be drawn ends the pass with its error.
    pub fn render(&self, width: u32, height: u32, commands: &Vec<UiCommand>) -> (res: Result<
        Vec<UiDraw>,
        UiError,
    >)
        ensures
            match res {
                Ok(draws) => {
                    &&& width > 0 && height > 0
                    &&& planned_upto(self.textures@, width, height, commands@, commands@.len() as int)
                        == Some(draws@)
                },
                Err(error) => {
                    ||| (width == 0 || height == 0) && error == UiError::EmptyFrame
                    ||| width > 0 && height > 0 && exists|at: int| #[trigger]
                        first_failure(self.textures@, width, height, commands@, at, error)
                },
            },
    {
        if width == 0 || height == 0 {
            return Err(UiError::EmptyFrame);
        }
        let mut draws: Vec<UiDraw> = Vec::new();
        let mut i: usize = 0;
        while i < commands.len()
            invariant
                i <= commands@.len(),
                width > 0 && height > 0,
                planned_upto(self.textures@, width, height, commands@, i as int) == Some(draws@),
            decreases commands.len() - i,
        {
            match commands[i] {
                UiCommand::Elements { count, clip_rect, texture_id, vtx_offset, idx_offset } => {
                    if (clip_rect.x0 as i64) < width as i64 && (clip_rect.y0 as i64) < height as i64
                        && clip_rect.x1 >= 0 && clip_rect.y1 >= 0 {
                        let texture = match self.lookup_texture(texture_id) {
                            Some(texture) => texture,
                            None => {
                                proof {
                                    assert(first_failure(
                                        self.textures@,
                                        width,
                                        height,
                                        commands@,
                                        i as int,
                                        UiError::UnknownTexture { command: i, texture_id },
                                    ));
                                }
                                return Err(UiError::UnknownTexture { command: i, texture_id });
                            },
                        };
                        if idx_offset > u32::MAX as usize || count > u32::MAX as usize - idx_offset
                            || vtx_offset > u32::MAX as usize {
                            proof {
                                assert(first_failure(
                                    self.textures@,
                                    width,
                                    height,
                                    commands@,
                                    i as int,
                                    UiError::OutOfRange { command: i },
                                ));
                            }
                            return Err(UiError::OutOfRange { command: i });
                        }
                        draws.push(
                            UiDraw::Elements {
                                first_index: idx_offset as u32,
                                end_index: (idx_offset + count) as u32,
                                base_vertex: vtx_offset as u32,
                                scissor: scissor(clip_rect, width, height),
                                texture,
                            },
                        );
                    }
                },
                UiCommand::ResetRenderState => {},
                UiCommand::RawCallback => {
                    draws.push(UiDraw::Callback { command: i });
                },
            }
            i = i + 1;
        }
        Ok(draws)
    }
}

/// The scissor rectangle of a clip rectangle in a framebuffer of the given
/// size.
pub fn scissor(clip: ClipRect, width: u32, height: u32) -> (rect: Scissor)
    ensures
        rect == scissor_of(clip, width, height),
{
    let left: i64 = if clip.x0 < 0 {
        0
    } else {
        clip.x0 as i64
    };
    let top: i64 = if clip.y0 < 0 {
        0
    } else {
        clip.y0 as i64
    };
    let right: i64 = if (clip.x1 as i64) < width as i64 {
        clip.x1 as i64
    } else {
        width as i64
    };
    let bottom: i64 = if (clip.y1 as i64) < height as i64 {
        clip.y1 as i64
    } else {
        height as i64
    };
    Scissor {
        x: left as u32,
        y: top as u32,
        width: if right > left {
            (right - left) as u32
        } else {
            0
        },
        height: if bottom > top {
            (bottom - top) as u32
        } else {
            0
        },
    }
}

} // verus!
