//! The textured triangle and its draw commands.
//!
//! A fixed three-vertex mesh with a diffuse texture: the vertex and index
//! data are constants baked into device buffers at startup, so the
//! component's exact state is its element count, its decoded texture and
//! the resource group bound to the texture layout.

use vstd::prelude::*;

use crate::bindings::{bind_texture_group, BindGroup, BindGroupLayout, LayoutKind};
use crate::commands::{current_pass, BufferId, IndexFormatKind, RenderCommand, RenderPass};
use crate::pipeline::{
    pass_slots, PassKind, VertexAttribute, VertexFormat, VertexLayoutDesc, VertexStepMode,
};
use crate::texture::{rgba_decode_of, Texture, TextureError, TextureUpload};

verus! {

/// The attributes of the triangle's vertex stream: position at offset 0,
/// texture coordinates at 12, in shader locations 0 and 1.
pub open spec fn triangle_vertex_attributes() -> Seq<VertexAttribute> {
    seq![
        VertexAttribute { offset: 0, shader_location: 0, format: VertexFormat::Float32x3 },
        VertexAttribute { offset: 12, shader_location: 1, format: VertexFormat::Float32x2 },
    ]
}

/// One triangle vertex: position and texture coordinates, each scalar an
/// opaque 32-bit pattern.
#[derive(Clone, Copy, Debug)]
pub struct Vertex {
    pub position: [u32; 3],
    pub tex_coords: [u32; 2],
}

impl Vertex {
    /// The triangle's vertex stream: 20 bytes per vertex, advancing per
    /// vertex.
    pub fn desc() -> (d: VertexLayoutDesc)
        ensures
            d.array_stride == 20,
            d.step_mode == VertexStepMode::Vertex,
            d.attributes@ == triangle_vertex_attributes(),
    {
        let mut attributes: Vec<VertexAttribute> = Vec::new();
        attributes.push(
            VertexAttribute { offset: 0, shader_location: 0, format: VertexFormat::Float32x3 },
        );
        attributes.push(
            VertexAttribute { offset: 12, shader_location: 1, format: VertexFormat::Float32x2 },
        );
        proof {
            assert(attributes@ =~= triangle_vertex_attributes());
        }
        VertexLayoutDesc { array_stride: 20, step_mode: VertexStepMode::Vertex, attributes }
    }
}

/// The number of indices the triangle's index buffer holds.
pub const TRIANGLE_INDEX_COUNT: u32 = 3;

/// The triangle component: its element count, its texture, and the
/// resource group bound to the texture layout.
pub struct Triangle {
    pub num_elements: u32,
    pub diffuse_texture: Texture,
    pub bind_group: BindGroup,
}

impl Triangle {
    /// Builds the triangle: decodes its diffuse texture into an upload
    /// and binds the resource group.  Succeeds exactly when the texture
    /// decodes and can be described.
    pub fn new(layout: &BindGroupLayout, texture_bytes: &Vec<u8>) -> (r: Result<
        (Triangle, TextureUpload),
        TextureError,
    >)
        requires
            layout.wf(),
            layout.kind == LayoutKind::TextureMaterial,
        ensures
            r is Ok <==> (rgba_decode_of(texture_bytes@) matches Some((p, w, h)) && 4 * w
                <= u32::MAX),
            r matches Ok((t, up)) ==> {
                &&& t.num_elements == TRIANGLE_INDEX_COUNT
                &&& t.bind_group.layout == LayoutKind::TextureMaterial
                &&& rgba_decode_of(texture_bytes@) matches Some((p, w, h)) && {
                    &&& t.diffuse_texture.extent.width == w
                    &&& t.diffuse_texture.extent.height == h
                    &&& up.data@ == p
                    &&& up.bytes_per_row == 4 * w
                    &&& up.rows_per_image == h
                }
            },
            r matches Err(e) ==> (e == TextureError::Decode <==> rgba_decode_of(texture_bytes@)
                is None),
    {
        let (diffuse_texture, upload) = match Texture::new(texture_bytes) {
            Ok(pair) => pair,
            Err(e) => {
                return Err(e);
            },
        };
        let bind_group = bind_texture_group(layout);
        let triangle = Triangle {
            num_elements: TRIANGLE_INDEX_COUNT,
            diffuse_texture,
            bind_group,
        };
        Ok((triangle, upload))
    }
}

/// The commands that draw the triangle over one instance range.
pub open spec fn triangle_draw_cmds(num_elements: u32, first_instance: u32, instance_count: u32)
    -> Seq<RenderCommand> {
    seq![
        RenderCommand::SetBindGroup { slot: 0, group: LayoutKind::TextureMaterial },
        RenderCommand::SetVertexBuffer { slot: 0, buffer: BufferId::TriangleVertex },
        RenderCommand::SetIndexBuffer {
            buffer: BufferId::TriangleIndex,
            format: IndexFormatKind::Uint32,
        },
        RenderCommand::DrawIndexed {
            index_count: num_elements,
            base_vertex: 0,
            first_instance,
            instance_count,
        },
    ]
}

/// Recording the triangle's draw into a render pass.
pub trait DrawTriangle {
    fn draw_triangle(&mut self, triangle: &Triangle)
        requires
            triangle.bind_group.layout == LayoutKind::TextureMaterial,
            current_pass(old(self).pass_commands()) matches Some(p) && pass_slots(p).len() > 0
                && pass_slots(p)[0] == LayoutKind::TextureMaterial,
        ensures
            final(self).pass_commands() == old(self).pass_commands() + triangle_draw_cmds(
                triangle.num_elements,
                0,
                1,
            ),
    ;

    fn draw_triangle_indexed(&mut self, triangle: &Triangle, first_instance: u32, instance_count:
        u32)
        requires
            triangle.bind_group.layout == LayoutKind::TextureMaterial,
            current_pass(old(self).pass_commands()) matches Some(p) && pass_slots(p).len() > 0
                && pass_slots(p)[0] == LayoutKind::TextureMaterial,
        ensures
            final(self).pass_commands() == old(self).pass_commands() + triangle_draw_cmds(
                triangle.num_elements,
                first_instance,
                instance_count,
            ),
    ;

    spec fn pass_commands(&self) -> Seq<RenderCommand>;
}

impl DrawTriangle for RenderPass {
    open spec fn pass_commands(&self) -> Seq<RenderCommand> {
        self.commands@
    }

    fn draw_triangle(&mut self, triangle: &Triangle) {
        self.draw_triangle_indexed(triangle, 0, 1);
    }

    fn draw_triangle_indexed(&mut self, triangle: &Triangle, first_instance: u32, instance_count:
        u32) {
        proof {
            crate::commands::lemma_current_pass_push(
                old(self).commands@,
                RenderCommand::SetBindGroup { slot: 0, group: LayoutKind::TextureMaterial },
            );
        }
        self.set_bind_group(0, &triangle.bind_group);
        proof {
            crate::commands::lemma_current_pass_push(
                self.commands@,
                RenderCommand::SetVertexBuffer { slot: 0, buffer: BufferId::TriangleVertex },
            );
        }
        self.set_vertex_buffer(0, BufferId::TriangleVertex);
        proof {
            crate::commands::lemma_current_pass_push(
                self.commands@,
                RenderCommand::SetIndexBuffer {
                    buffer: BufferId::TriangleIndex,
                    format: IndexFormatKind::Uint32,
                },
            );
        }
        self.set_index_buffer(BufferId::TriangleIndex, IndexFormatKind::Uint32);
        self.draw_indexed(triangle.num_elements, 0, first_instance, instance_count);
        proof {
            assert(self.commands@ =~= old(self).commands@ + triangle_draw_cmds(
                triangle.num_elements,
                first_instance,
                instance_count,
            ));
        }
    }
}

} // verus!
