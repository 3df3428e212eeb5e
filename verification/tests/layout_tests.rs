use glfw_app::context::GlCommand;
use glfw_app::context::GlContext;
use glfw_app::gl_constants::GL_ARRAY_BUFFER;
use glfw_app::gl_constants::GL_FLOAT;
use glfw_app::gl_constants::GL_UNSIGNED_BYTE;
use glfw_app::gl_constants::GL_UNSIGNED_INT;
use glfw_app::vertex_array::VertexArray;
use glfw_app::vertex_buffer::VertexBuffer;
use glfw_app::vertex_buffer_layout::size_of_type;
use glfw_app::vertex_buffer_layout::size_of_type_checked;
use glfw_app::vertex_buffer_layout::VertexBufferLayout;

#[test]
fn size_lookup_is_type_specific() {
    assert_eq!(size_of_type(GL_FLOAT), 4);
    assert_eq!(size_of_type(GL_UNSIGNED_INT), 4);
    assert_eq!(size_of_type(GL_UNSIGNED_BYTE), 1);
}

#[test]
fn size_lookup_rejects_unsupported_tag() {
    assert_eq!(size_of_type_checked(GL_FLOAT), Some(4));
    assert_eq!(size_of_type_checked(0x1402), None);
    assert_eq!(size_of_type_checked(0), None);
}

#[test]
fn stride_accumulates_two_float_elements() {
    let layout = VertexBufferLayout::default().with_floats(3).with_floats(2);
    assert_eq!(layout.stride(), 20);
    let elements = layout.elements();
    assert_eq!(elements.len(), 2);
    assert_eq!(elements[0].gl_type(), GL_FLOAT);
    assert_eq!(elements[0].count(), 3);
    assert!(!elements[0].normalized());
    assert_eq!(elements[1].count(), 2);
}

#[test]
fn stride_sums_mixed_element_sizes() {
    let layout = VertexBufferLayout::default().with_uints(2).with_ubytes(4).with_floats(1);
    assert_eq!(layout.stride(), 2 * 4 + 4 * 1 + 1 * 4);
    assert!(layout.elements()[1].normalized());
    assert!(!layout.elements()[0].normalized());
}

#[test]
fn add_buffer_configures_slots_in_insertion_order() {
    let mut ctx = GlContext::new();
    let buffer = VertexBuffer::new(&mut ctx, 8, 4, 20).unwrap();
    let mut va = VertexArray::new(&mut ctx, 3).unwrap();
    ctx.take_commands();
    let layout = VertexBufferLayout::default().with_floats(3).with_floats(2);
    va.add_buffer(&mut ctx, &buffer, &layout);
    let cmds = ctx.take_commands();
    assert_eq!(
        cmds,
        vec![
            GlCommand::BindVertexArray { id: 3 },
            GlCommand::BindBuffer { target: GL_ARRAY_BUFFER, id: 8 },
            GlCommand::EnableVertexAttribArray { index: 0 },
            GlCommand::VertexAttribPointer {
                index: 0,
                count: 3,
                gl_type: GL_FLOAT,
                normalized: false,
                stride: 20,
                offset: 0,
            },
            GlCommand::EnableVertexAttribArray { index: 1 },
            GlCommand::VertexAttribPointer {
                index: 1,
                count: 2,
                gl_type: GL_FLOAT,
                normalized: false,
                stride: 20,
                offset: 12,
            },
        ]
    );
}
