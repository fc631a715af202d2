//! Rendering a caught exception for humans.
//!
//! Describing an error takes further message sends — resolving the
//! standard exception class, testing membership, fetching the reason or
//! class-name string, decoding its byte payload — and every one of them
//! can itself fail. This module holds the cascade that decides, from the
//! outcomes of those steps, what is rendered: the real diagnostic where
//! everything succeeded, and a fixed, documented fallback at each point
//! of failure. The sends and the byte decoding happen outside this
//! crate; they hand their outcomes in as plain values.

use vstd::prelude::*;

use crate::class::Class;
use crate::Object;

verus! {

/// What an error's human-readable description renders.
#[derive(Clone, Copy, PartialEq, Eq, Structural, Debug)]
pub enum DisplayChoice {
    /// The exception is one of the standard exception class and its
    /// reason string was fetched: render that string object.
    Reason(Object),
    /// The exception is one of the standard exception class, but asking
    /// it for its reason raised in turn: render the fixed
    /// properties-unavailable text.
    PropertiesUnavailable,
    /// The standard exception class could not be resolved, or the
    /// membership test failed or raised: render the fixed
    /// not-a-standard-exception text.
    NotStandardException,
}

/// What rendering a foreign string object produces.
#[derive(Clone, Copy, PartialEq, Eq, Structural, Debug)]
pub enum StringRender {
    /// The byte payload was fetched and decodes as text: render it.
    Text,
    /// The byte payload was fetched but is not valid text: render the
    /// raw bytes in debug form.
    RawBytes,
    /// Fetching the byte payload raised: render the fixed
    /// information-unavailable text.
    Unavailable,
}

/// What an error's debug rendering shows for the exception's class name.
#[derive(Clone, Copy, PartialEq, Eq, Structural, Debug)]
pub enum DebugChoice {
    /// The class-name string was fetched: render that string object.
    ClassName(Object),
    /// Asking for the class name raised: render the fixed fallback text.
    Unavailable,
}

/// The description cascade. `standard_class` is the lazily resolved
/// standard exception class, absent where no such class exists on this
/// runtime. `is_standard` is the outcome of the membership send, absent
/// where that send itself raised. `reason` is the outcome of the reason
/// send, absent where it raised; it is consulted only when the exception
/// is a member of the standard class.
pub open spec fn display_choice(
    standard_class: Option<Class>,
    is_standard: Option<bool>,
    reason: Option<Object>,
) -> DisplayChoice {
    if standard_class is Some && is_standard == Some(true) {
        match reason {
            Some(text) => DisplayChoice::Reason(text),
            None => DisplayChoice::PropertiesUnavailable,
        }
    } else {
        DisplayChoice::NotStandardException
    }
}

/// Decides what an error's description renders; see [`display_choice`].
/// Degradation is total: whichever step fails, the description is a
/// fixed fallback text, never a fault.
pub fn choose_display(
    standard_class: Option<Class>,
    is_standard: Option<bool>,
    reason: Option<Object>,
) -> (r: DisplayChoice)
    ensures
        r == display_choice(standard_class, is_standard, reason),
{
    if standard_class.is_some() && is_standard == Some(true) {
        match reason {
            Some(text) => DisplayChoice::Reason(text),
            None => DisplayChoice::PropertiesUnavailable,
        }
    } else {
        DisplayChoice::NotStandardException
    }
}

/// The string-render cascade: `fetched` says whether the byte payload of
/// the string object was obtained at all, `decodable` whether those
/// bytes are valid text.
pub open spec fn string_render(fetched: bool, decodable: bool) -> StringRender {
    if !fetched {
        StringRender::Unavailable
    } else if decodable {
        StringRender::Text
    } else {
        StringRender::RawBytes
    }
}

/// Decides how a foreign string object is rendered; see
/// [`string_render`].
pub fn choose_string_render(fetched: bool, decodable: bool) -> (r: StringRender)
    ensures
        r == string_render(fetched, decodable),
{
    if !fetched {
        StringRender::Unavailable
    } else if decodable {
        StringRender::Text
    } else {
        StringRender::RawBytes
    }
}

/// Decides what the debug rendering shows: the class-name string where
/// the class-name send succeeded, the fixed fallback otherwise.
pub fn choose_debug(class_name: Option<Object>) -> (r: DebugChoice)
    ensures
        class_name matches Some(text) ==> r == DebugChoice::ClassName(text),
        class_name is None ==> r == DebugChoice::Unavailable,
{
    match class_name {
        Some(text) => DebugChoice::ClassName(text),
        None => DebugChoice::Unavailable,
    }
}

/// The fixed text rendered for an exception that is not of the standard
/// exception class, or whose membership could not be established.
pub fn not_standard_exception_text() -> (r: &'static str)
    ensures
        r@ == "Objective-C threw an exception that was not of type NSException"@,
{
    "Objective-C threw an exception that was not of type NSException"
}

/// The fixed text rendered where the exception's properties could not be
/// accessed.
pub fn properties_unavailable_text() -> (r: &'static str)
    ensures
        r@ == "<an error occurred while accessing the exception's properties>"@,
{
    "<an error occurred while accessing the exception's properties>"
}

/// The fixed text rendered where a string object's byte payload could
/// not be fetched.
pub fn string_unavailable_text() -> (r: &'static str)
    ensures
        r@ == "<failed to get error information>"@,
{
    "<failed to get error information>"
}

/// The fixed text the debug rendering shows where the class name could
/// not be fetched.
pub fn class_name_unavailable_text() -> (r: &'static str)
    ensures
        r@ == "<failed to get class name>"@,
{
    "<failed to get class name>"
}

/// Law: the description cascade degrades, never faults. Where the
/// standard exception class cannot be resolved, or the membership send
/// fails or denies membership, the description is the documented
/// fallback text's case — whatever the later steps would have said; and
/// a resolved class with established membership never falls back to it.
pub proof fn lemma_display_degrades(
    standard_class: Option<Class>,
    is_standard: Option<bool>,
    reason: Option<Object>,
)
    ensures
        standard_class is None ==> display_choice(standard_class, is_standard, reason)
            == DisplayChoice::NotStandardException,
        is_standard != Some(true) ==> display_choice(standard_class, is_standard, reason)
            == DisplayChoice::NotStandardException,
        standard_class is Some && is_standard == Some(true) ==> display_choice(
            standard_class,
            is_standard,
            reason,
        ) != DisplayChoice::NotStandardException,
{
}

} // verus!
