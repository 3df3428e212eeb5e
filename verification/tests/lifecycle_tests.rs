use glfw_app::context::GlCommand;
use glfw_app::context::GlContext;
use glfw_app::context::HandleKind;
use glfw_app::context::ResourceError;
use glfw_app::gl_component::GLComponent;
use glfw_app::gl_constants::GL_ELEMENT_ARRAY_BUFFER;
use glfw_app::gl_constants::GL_STATIC_DRAW;
use glfw_app::index_buffer::IndexBuffer;
use glfw_app::vertex_array::VertexArray;
use glfw_app::vertex_buffer::VertexBuffer;

#[test]
fn index_buffer_uploads_once_and_deletes_once() {
    let mut ctx = GlContext::new();
    let data: Vec<u32> = vec![0, 1, 2, 2, 3, 0];
    let ib = IndexBuffer::new(&mut ctx, 7, &data).unwrap();
    assert_ne!(ib.renderer_id(), 0);
    assert_eq!(ib.renderer_id(), 7);
    assert!(ctx.live_contains(HandleKind::Buffer, 7));
    ib.delete(&mut ctx);
    assert!(!ctx.live_contains(HandleKind::Buffer, 7));
    let cmds = ctx.take_commands();
    assert_eq!(
        cmds,
        vec![
            GlCommand::BindBuffer { target: GL_ELEMENT_ARRAY_BUFFER, id: 7 },
            GlCommand::BufferDataU32 {
                target: GL_ELEMENT_ARRAY_BUFFER,
                data: vec![0, 1, 2, 2, 3, 0],
                usage: GL_STATIC_DRAW,
            },
            GlCommand::DeleteBuffers { id: 7 },
        ]
    );
    let deletions = cmds
        .iter()
        .filter(|c| **c == GlCommand::DeleteBuffers { id: 7 })
        .count();
    assert_eq!(deletions, 1);
}

#[test]
fn zero_handle_is_rejected() {
    let mut ctx = GlContext::new();
    let data: Vec<u32> = vec![1, 2, 3];
    assert_eq!(
        IndexBuffer::new(&mut ctx, 0, &data).err(),
        Some(ResourceError::ZeroHandle)
    );
    assert_eq!(
        VertexBuffer::new(&mut ctx, 0, 3, 4).err(),
        Some(ResourceError::ZeroHandle)
    );
    assert_eq!(VertexArray::new(&mut ctx, 0).err(), Some(ResourceError::ZeroHandle));
    assert_eq!(ctx.take_commands(), vec![]);
}

#[test]
fn live_handle_is_not_reused_within_its_namespace() {
    let mut ctx = GlContext::new();
    let data: Vec<u32> = vec![1, 2, 3];
    let ib = IndexBuffer::new(&mut ctx, 5, &data).unwrap();
    assert_eq!(
        IndexBuffer::new(&mut ctx, 5, &data).err(),
        Some(ResourceError::HandleInUse)
    );
    assert_eq!(
        VertexBuffer::new(&mut ctx, 5, 3, 4).err(),
        Some(ResourceError::HandleInUse)
    );
    // other namespaces number independently
    let va = VertexArray::new(&mut ctx, 5).unwrap();
    assert_eq!(va.renderer_id(), 5);
    // a released handle may be handed out again by the driver
    ib.delete(&mut ctx);
    let ib2 = IndexBuffer::new(&mut ctx, 5, &data).unwrap();
    assert_eq!(ib2.renderer_id(), 5);
}

#[test]
fn empty_data_is_rejected() {
    let mut ctx = GlContext::new();
    let data: Vec<u32> = vec![];
    assert_eq!(
        IndexBuffer::new(&mut ctx, 4, &data).err(),
        Some(ResourceError::EmptyData)
    );
    assert_eq!(
        VertexBuffer::new(&mut ctx, 4, 0, 4).err(),
        Some(ResourceError::EmptyData)
    );
    assert!(!ctx.live_contains(HandleKind::Buffer, 4));
}

#[test]
fn bind_and_unbind_record_their_slots() {
    let mut ctx = GlContext::new();
    let data: Vec<u32> = vec![1];
    let ib = IndexBuffer::new(&mut ctx, 2, &data).unwrap();
    let vb = VertexBuffer::new(&mut ctx, 3, 1, 4).unwrap();
    let va = VertexArray::new(&mut ctx, 4).unwrap();
    ctx.take_commands();
    ib.bind(&mut ctx);
    ib.unbind(&mut ctx);
    vb.bind(&mut ctx);
    vb.unbind(&mut ctx);
    va.bind(&mut ctx);
    va.unbind(&mut ctx);
    let cmds = ctx.take_commands();
    assert_eq!(
        cmds,
        vec![
            GlCommand::BindBuffer { target: 0x8893, id: 2 },
            GlCommand::BindBuffer { target: 0x8893, id: 0 },
            GlCommand::BindBuffer { target: 0x8892, id: 3 },
            GlCommand::BindBuffer { target: 0x8892, id: 0 },
            GlCommand::BindVertexArray { id: 4 },
            GlCommand::BindVertexArray { id: 0 },
        ]
    );
}

#[test]
fn take_commands_clears_the_log_and_keeps_ownership() {
    let mut ctx = GlContext::new();
    let data: Vec<u32> = vec![1, 2];
    let _ib = IndexBuffer::new(&mut ctx, 6, &data).unwrap();
    let first = ctx.take_commands();
    assert_eq!(first.len(), 2);
    assert_eq!(ctx.take_commands(), vec![]);
    assert!(ctx.live_contains(HandleKind::Buffer, 6));
}
