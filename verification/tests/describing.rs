//! The diagnostic-rendering cascade: the real reason where every step
//! succeeds, and the documented fallback text at each point of failure.

use loaf::{
    choose_debug, choose_display, choose_string_render, class_name_unavailable_text,
    not_standard_exception_text, properties_unavailable_text, string_unavailable_text, Class,
    DebugChoice, DisplayChoice, Object, StringRender,
};

#[test]
fn reason_renders_where_everything_succeeds() {
    let standard = Class::new(0x10).unwrap();
    let reason = Object::from_ptr(0x20).unwrap();
    let choice = choose_display(Some(standard), Some(true), Some(reason));
    assert_eq!(choice, DisplayChoice::Reason(reason));
}

#[test]
fn unresolvable_class_degrades_to_the_documented_fallback() {
    // A membership check against a class that cannot be resolved never
    // faults: the description degrades to the fixed fallback string.
    let reason = Object::from_ptr(0x20).unwrap();
    let choice = choose_display(None, None, Some(reason));
    assert_eq!(choice, DisplayChoice::NotStandardException);
    assert_eq!(
        not_standard_exception_text(),
        "Objective-C threw an exception that was not of type NSException"
    );
}

#[test]
fn membership_check_is_boolean_never_an_error() {
    let standard = Class::new(0x10).unwrap();
    let reason = Object::from_ptr(0x20).unwrap();
    // Membership true: the reason renders.
    assert_eq!(
        choose_display(Some(standard), Some(true), Some(reason)),
        DisplayChoice::Reason(reason)
    );
    // Membership false: the fallback renders; no error escapes.
    assert_eq!(
        choose_display(Some(standard), Some(false), Some(reason)),
        DisplayChoice::NotStandardException
    );
    // The membership send itself raised: the same fallback.
    assert_eq!(
        choose_display(Some(standard), None, Some(reason)),
        DisplayChoice::NotStandardException
    );
}

#[test]
fn failing_reason_send_degrades_to_properties_text() {
    let standard = Class::new(0x10).unwrap();
    let choice = choose_display(Some(standard), Some(true), None);
    assert_eq!(choice, DisplayChoice::PropertiesUnavailable);
    assert_eq!(
        properties_unavailable_text(),
        "<an error occurred while accessing the exception's properties>"
    );
}

#[test]
fn string_rendering_degrades_stepwise() {
    assert_eq!(choose_string_render(true, true), StringRender::Text);
    assert_eq!(choose_string_render(true, false), StringRender::RawBytes);
    assert_eq!(choose_string_render(false, true), StringRender::Unavailable);
    assert_eq!(choose_string_render(false, false), StringRender::Unavailable);
    assert_eq!(string_unavailable_text(), "<failed to get error information>");
}

#[test]
fn debug_rendering_shows_class_name_or_fallback() {
    let name = Object::from_ptr(0x30).unwrap();
    assert_eq!(choose_debug(Some(name)), DebugChoice::ClassName(name));
    assert_eq!(choose_debug(None), DebugChoice::Unavailable);
    assert_eq!(class_name_unavailable_text(), "<failed to get class name>");
}

#[test]
fn null_class_lookup_yields_no_class() {
    assert!(Class::new(0).is_none());
    let c = Class::new(0x40).unwrap();
    assert_eq!(c.as_ptr(), 0x40);
}
