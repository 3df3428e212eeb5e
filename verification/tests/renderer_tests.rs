use glfw_app::context::GlCommand;
use glfw_app::context::GlContext;
use glfw_app::context::ResourceError;
use glfw_app::gl_component::GLComponent;
use glfw_app::gl_constants::GL_CLAMP_TO_EDGE;
use glfw_app::gl_constants::GL_ELEMENT_ARRAY_BUFFER;
use glfw_app::gl_constants::GL_LINEAR;
use glfw_app::gl_constants::GL_RGB;
use glfw_app::gl_constants::GL_RGB8;
use glfw_app::gl_constants::GL_TEXTURE0;
use glfw_app::gl_constants::GL_TEXTURE_2D;
use glfw_app::gl_constants::GL_TEXTURE_MAG_FILTER;
use glfw_app::gl_constants::GL_TEXTURE_MIN_FILTER;
use glfw_app::gl_constants::GL_TEXTURE_WRAP_S;
use glfw_app::gl_constants::GL_TEXTURE_WRAP_T;
use glfw_app::gl_constants::GL_TRIANGLES;
use glfw_app::gl_constants::GL_UNSIGNED_BYTE;
use glfw_app::gl_constants::GL_UNSIGNED_INT;
use glfw_app::index_buffer::IndexBuffer;
use glfw_app::renderer::draw;
use glfw_app::shader::Shader;
use glfw_app::texture::Texture;
use glfw_app::vertex_array::VertexArray;

#[test]
fn draw_binds_shader_array_and_indices_then_draws_six() {
    let mut ctx = GlContext::new();
    let data: Vec<u32> = vec![0, 1, 2, 2, 3, 0];
    let ib = IndexBuffer::new(&mut ctx, 1, &data).unwrap();
    let va = VertexArray::new(&mut ctx, 2).unwrap();
    let shader = Shader::new(&mut ctx, 3).unwrap();
    ctx.take_commands();
    draw(&mut ctx, &va, &ib, &shader);
    let cmds = ctx.take_commands();
    assert_eq!(
        cmds,
        vec![
            GlCommand::UseProgram { id: 3 },
            GlCommand::BindVertexArray { id: 2 },
            GlCommand::BindBuffer { target: GL_ELEMENT_ARRAY_BUFFER, id: 1 },
            GlCommand::DrawElements {
                mode: GL_TRIANGLES,
                index_count: 6,
                index_type: GL_UNSIGNED_INT,
            },
        ]
    );
}

#[test]
fn draw_indexed_draws_the_requested_index_count() {
    let mut ctx = GlContext::new();
    let data: Vec<u32> = vec![0, 1, 2, 2, 3, 0, 4, 5, 6, 6, 7, 4];
    let ib = IndexBuffer::new(&mut ctx, 1, &data).unwrap();
    let va = VertexArray::new(&mut ctx, 2).unwrap();
    let shader = Shader::new(&mut ctx, 3).unwrap();
    ctx.take_commands();
    glfw_app::renderer::draw_indexed(&mut ctx, &va, &ib, &shader, 12);
    let cmds = ctx.take_commands();
    assert_eq!(cmds.len(), 4);
    assert_eq!(
        cmds[3],
        GlCommand::DrawElements { mode: GL_TRIANGLES, index_count: 12, index_type: GL_UNSIGNED_INT }
    );
}

#[test]
fn shader_bind_and_unbind_use_the_program() {
    let mut ctx = GlContext::new();
    let shader = Shader::new(&mut ctx, 11).unwrap();
    shader.bind(&mut ctx);
    shader.unbind(&mut ctx);
    assert_eq!(
        ctx.take_commands(),
        vec![GlCommand::UseProgram { id: 11 }, GlCommand::UseProgram { id: 0 }]
    );
}

#[test]
fn texture_setup_uploads_once_with_linear_clamped_parameters() {
    let mut ctx = GlContext::new();
    let tex = Texture::new(&mut ctx, 5, 64, 32).unwrap();
    assert_eq!(tex.renderer_id(), 5);
    assert_eq!(tex.width(), 64);
    assert_eq!(tex.height(), 32);
    let cmds = ctx.take_commands();
    assert_eq!(
        cmds,
        vec![
            GlCommand::BindTexture { target: GL_TEXTURE_2D, id: 5 },
            GlCommand::TexParameteri {
                target: GL_TEXTURE_2D,
                pname: GL_TEXTURE_MIN_FILTER,
                param: GL_LINEAR as i32,
            },
            GlCommand::TexParameteri {
                target: GL_TEXTURE_2D,
                pname: GL_TEXTURE_MAG_FILTER,
                param: GL_LINEAR as i32,
            },
            GlCommand::TexParameteri {
                target: GL_TEXTURE_2D,
                pname: GL_TEXTURE_WRAP_S,
                param: GL_CLAMP_TO_EDGE as i32,
            },
            GlCommand::TexParameteri {
                target: GL_TEXTURE_2D,
                pname: GL_TEXTURE_WRAP_T,
                param: GL_CLAMP_TO_EDGE as i32,
            },
            GlCommand::TexImage2D {
                target: GL_TEXTURE_2D,
                level: 0,
                internal_format: GL_RGB8 as i32,
                width: 64,
                height: 32,
                border: 0,
                format: GL_RGB,
                pixel_type: GL_UNSIGNED_BYTE,
            },
            GlCommand::BindTexture { target: GL_TEXTURE_2D, id: 0 },
        ]
    );
}

#[test]
fn texture_rejects_unusable_handles() {
    let mut ctx = GlContext::new();
    assert_eq!(Texture::new(&mut ctx, 0, 4, 4).err(), Some(ResourceError::ZeroHandle));
    let _tex = Texture::new(&mut ctx, 9, 4, 4).unwrap();
    assert_eq!(Texture::new(&mut ctx, 9, 8, 8).err(), Some(ResourceError::HandleInUse));
}

#[test]
fn texture_binds_to_the_requested_unit_and_deletes_once() {
    let mut ctx = GlContext::new();
    let tex = Texture::new(&mut ctx, 6, 2, 2).unwrap();
    ctx.take_commands();
    tex.bind(&mut ctx, 1);
    tex.unbind(&mut ctx);
    tex.delete(&mut ctx);
    let cmds = ctx.take_commands();
    assert_eq!(
        cmds,
        vec![
            GlCommand::ActiveTexture { unit: GL_TEXTURE0 + 1 },
            GlCommand::BindTexture { target: GL_TEXTURE_2D, id: 6 },
            GlCommand::BindTexture { target: GL_TEXTURE_2D, id: 0 },
            GlCommand::DeleteTextures { id: 6 },
        ]
    );
    let deletions = cmds
        .iter()
        .filter(|c| **c == GlCommand::DeleteTextures { id: 6 })
        .count();
    assert_eq!(deletions, 1);
}
