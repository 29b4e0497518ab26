use vstd::prelude::*;

use std::sync::Arc;

verus! {

/// An immutable string whose clone only bumps a reference count.
pub type LightStr = Arc<str>;

/// The text that a `LightStr` holds.
pub open spec fn light_str_view(s: &LightStr) -> Seq<char> {
    (**s)@
}

/// Relies on `From<&str> for Arc<str>`: a new allocation holding a copy of
/// the text.
#[verifier::external_body]
fn arc_str_from_str(s: &str) -> (r: LightStr)
    ensures
        light_str_view(&r) == s@,
{
    Arc::from(s)
}

/// Relies on `From<String> for Arc<str>`: the text of the string, moved
/// into a new allocation.
#[verifier::external_body]
fn arc_str_from_string(s: String) -> (r: LightStr)
    ensures
        light_str_view(&r) == s@,
{
    Arc::from(s)
}

/// Conversion into a `LightStr`, named for what it produces.
pub trait IntoLightStr: Sized {
    /// The text that the conversion keeps.
    spec fn light_str_text(&self) -> Seq<char>;

    /// Converts this value into a `LightStr` holding the same text.
    fn into_light_str(self) -> (r: LightStr)
        ensures
            light_str_view(&r) == self.light_str_text(),
    ;
}

impl<'a> IntoLightStr for &'a str {
    open spec fn light_str_text(&self) -> Seq<char> {
        (*self)@
    }

    /// Copies the text into a new allocation.
    fn into_light_str(self) -> (r: LightStr) {
        arc_str_from_str(self)
    }
}

impl IntoLightStr for String {
    open spec fn light_str_text(&self) -> Seq<char> {
        self@
    }

    /// Moves the text into a new allocation.
    fn into_light_str(self) -> (r: LightStr) {
        arc_str_from_string(self)
    }
}

impl<'a> IntoLightStr for &'a String {
    open spec fn light_str_text(&self) -> Seq<char> {
        (*self)@
    }

    /// Copies the text into a new allocation; the string stays usable.
    fn into_light_str(self) -> (r: LightStr) {
        arc_str_from_str(self.as_str())
    }
}

impl IntoLightStr for LightStr {
    open spec fn light_str_text(&self) -> Seq<char> {
        light_str_view(self)
    }

    /// Returns the value unchanged, so that generic code over
    /// `IntoLightStr` also takes a `LightStr`.
    fn into_light_str(self) -> (r: LightStr)
        ensures
            r == self,
    {
        self
    }
}

/// Conversion into a `LightStr`, under its legacy name.
pub trait IntoLcStr: Sized {
    /// The text that the conversion keeps.
    spec fn lc_str_text(&self) -> Seq<char>;

    /// Converts this value into a `LightStr` holding the same text.
    fn into_lc(self) -> (r: LightStr)
        ensures
            light_str_view(&r) == self.lc_str_text(),
    ;
}

impl<'a> IntoLcStr for &'a str {
    open spec fn lc_str_text(&self) -> Seq<char> {
        (*self)@
    }

    /// Copies the text into a new allocation.
    fn into_lc(self) -> (r: LightStr) {
        arc_str_from_str(self)
    }
}

impl IntoLcStr for String {
    open spec fn lc_str_text(&self) -> Seq<char> {
        self@
    }

    /// Moves the text into a new allocation.
    fn into_lc(self) -> (r: LightStr) {
        arc_str_from_string(self)
    }
}

impl<'a> IntoLcStr for &'a String {
    open spec fn lc_str_text(&self) -> Seq<char> {
        (*self)@
    }

    /// Copies the text into a new allocation; the string stays usable.
    fn into_lc(self) -> (r: LightStr) {
        arc_str_from_str(self.as_str())
    }
}

impl IntoLcStr for LightStr {
    open spec fn lc_str_text(&self) -> Seq<char> {
        light_str_view(self)
    }

    /// Returns the value unchanged.
    fn into_lc(self) -> (r: LightStr)
        ensures
            r == self,
    {
        self
    }
}

} // verus!
