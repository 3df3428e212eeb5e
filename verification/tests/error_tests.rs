use glfw_app::gl_error::gl_log_errors;
use glfw_app::gl_error::strip_newlines;
use glfw_app::gl_error::GLGenericError;

#[test]
fn codes_translate_to_fixed_categories() {
    assert_eq!(GLGenericError::from(0x0000), GLGenericError::NoError);
    assert_eq!(GLGenericError::from(0x0500), GLGenericError::InvalidEnum);
    assert_eq!(GLGenericError::from(0x0501), GLGenericError::InvalidValue);
    assert_eq!(GLGenericError::from(0x0502), GLGenericError::InvalidOperation);
    assert_eq!(GLGenericError::from(0x0503), GLGenericError::StackOverflow);
    assert_eq!(GLGenericError::from(0x0504), GLGenericError::StackUnderflow);
    assert_eq!(GLGenericError::from(0x0505), GLGenericError::OutOfMemory);
    assert_eq!(GLGenericError::from(0x9999), GLGenericError::UnknownError);
}

#[test]
fn categories_render_their_names() {
    assert_eq!(GLGenericError::NoError.message(), "No Error");
    assert_eq!(GLGenericError::InvalidEnum.message(), "Invalid Enum");
    assert_eq!(GLGenericError::InvalidValue.message(), "Invalid Value");
    assert_eq!(GLGenericError::InvalidOperation.message(), "Invalid Operation");
    assert_eq!(GLGenericError::StackOverflow.message(), "Stack Overflow");
    assert_eq!(GLGenericError::StackUnderflow.message(), "Stack Underflow");
    assert_eq!(GLGenericError::OutOfMemory.message(), "Out of Memory");
    assert_eq!(GLGenericError::UnknownError.message(), "Unknown Error");
}

#[test]
fn invalid_operation_is_logged_once_with_its_call_site() {
    let codes: Vec<u32> = vec![0x0502];
    let (entries, errored) = gl_log_errors(
        "src/main.rs",
        42,
        "gl :: BindTexture(gl :: TEXTURE_3D, 1) ;",
        &codes,
    );
    assert!(errored);
    assert_eq!(entries.len(), 1);
    assert_eq!(entries[0].code, 0x0502);
    assert_eq!(entries[0].error, GLGenericError::InvalidOperation);
    assert_eq!(entries[0].error.message(), "Invalid Operation");
    assert_eq!(entries[0].file, "src/main.rs");
    assert_eq!(entries[0].line, 42);
    assert_eq!(entries[0].statement, "gl :: BindTexture(gl :: TEXTURE_3D, 1) ;");
}

#[test]
fn draining_stops_at_the_first_clear_flag() {
    let codes: Vec<u32> = vec![0x0500, 0x0505, 0x0000, 0x0501];
    let (entries, errored) = gl_log_errors("a.rs", 1, "stmt", &codes);
    assert!(errored);
    assert_eq!(entries.len(), 2);
    assert_eq!(entries[0].error, GLGenericError::InvalidEnum);
    assert_eq!(entries[1].error, GLGenericError::OutOfMemory);
}

#[test]
fn no_pending_codes_means_no_error() {
    let codes: Vec<u32> = vec![];
    let (entries, errored) = gl_log_errors("a.rs", 1, "stmt", &codes);
    assert!(!errored);
    assert_eq!(entries.len(), 0);

    let codes: Vec<u32> = vec![0x0000];
    let (entries, errored) = gl_log_errors("a.rs", 2, "stmt", &codes);
    assert!(!errored);
    assert_eq!(entries.len(), 0);
}

#[test]
fn statement_text_loses_its_newlines() {
    assert_eq!(strip_newlines("a\nb\nc"), "abc");
    assert_eq!(strip_newlines("\n\n"), "");
    assert_eq!(strip_newlines("plain"), "plain");
    let codes: Vec<u32> = vec![0x0502];
    let (entries, _) = gl_log_errors("f.rs", 7, "line one\nline two", &codes);
    assert_eq!(entries[0].statement, "line oneline two");
}
