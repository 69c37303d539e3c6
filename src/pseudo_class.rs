//! Pseudo-classes that do not depend on the document tree's structure.
use vstd::prelude::*;
use vstd::utf8::encode_utf8;
use vstd::string::StringSliceAdditionalSpecFns;
use crate::ascii::{eq_ignore_ascii_case_from, eq_ignore_case_from};
use crate::element_state::{
    ElementState, IN_ACTIVE_STATE, IN_FOCUS_STATE, IN_FULLSCREEN_STATE, IN_HOVER_STATE,
    IN_ENABLED_STATE, IN_DISABLED_STATE, IN_CHECKED_STATE, IN_INDETERMINATE_STATE,
    IN_READ_WRITE_STATE,
};
use crate::error::PseudoError;

verus! {

/// A non-tree-structural pseudo-class.
#[derive(Clone, Copy, Debug, PartialEq, Eq, Hash, Structural)]
pub enum NonTSPseudoClass {
    AnyLink,
    Link,
    Visited,
    Active,
    Focus,
    Fullscreen,
    Hover,
    Enabled,
    Disabled,
    Checked,
    Indeterminate,
    ReadWrite,
    ReadOnly,
}

/// The serialised form of a pseudo-class, with its colon.
pub open spec fn css_text_of(pc: NonTSPseudoClass) -> Seq<char> {
    match pc {
        NonTSPseudoClass::AnyLink => ":any-link"@,
        NonTSPseudoClass::Link => ":link"@,
        NonTSPseudoClass::Visited => ":visited"@,
        NonTSPseudoClass::Active => ":active"@,
        NonTSPseudoClass::Focus => ":focus"@,
        NonTSPseudoClass::Fullscreen => ":fullscreen"@,
        NonTSPseudoClass::Hover => ":hover"@,
        NonTSPseudoClass::Enabled => ":enabled"@,
        NonTSPseudoClass::Disabled => ":disabled"@,
        NonTSPseudoClass::Checked => ":checked"@,
        NonTSPseudoClass::Indeterminate => ":indeterminate"@,
        NonTSPseudoClass::ReadWrite => ":read-write"@,
        NonTSPseudoClass::ReadOnly => ":read-only"@,
    }
}

/// The element state bits that a pseudo-class is matched against.
pub open spec fn state_bits_of(pc: NonTSPseudoClass) -> u16 {
    match pc {
        NonTSPseudoClass::Active => IN_ACTIVE_STATE,
        NonTSPseudoClass::Focus => IN_FOCUS_STATE,
        NonTSPseudoClass::Fullscreen => IN_FULLSCREEN_STATE,
        NonTSPseudoClass::Hover => IN_HOVER_STATE,
        NonTSPseudoClass::Enabled => IN_ENABLED_STATE,
        NonTSPseudoClass::Disabled => IN_DISABLED_STATE,
        NonTSPseudoClass::Checked => IN_CHECKED_STATE,
        NonTSPseudoClass::Indeterminate => IN_INDETERMINATE_STATE,
        NonTSPseudoClass::ReadOnly | NonTSPseudoClass::ReadWrite => IN_READ_WRITE_STATE,
        NonTSPseudoClass::AnyLink | NonTSPseudoClass::Link | NonTSPseudoClass::Visited => 0,
    }
}

/// Whether `name` (without its colon) names `pc`, ignoring ASCII case.
pub open spec fn names_class(name: Seq<u8>, pc: NonTSPseudoClass) -> bool {
    eq_ignore_case_from(name, encode_utf8(css_text_of(pc)), 1)
}

/// The pseudo-class that `name` names, trying the vocabulary in declaration order.
pub open spec fn resolve_spec(name: Seq<u8>) -> Result<NonTSPseudoClass, PseudoError> {
    if names_class(name, NonTSPseudoClass::AnyLink) {
        Ok(NonTSPseudoClass::AnyLink)
    } else if names_class(name, NonTSPseudoClass::Link) {
        Ok(NonTSPseudoClass::Link)
    } else if names_class(name, NonTSPseudoClass::Visited) {
        Ok(NonTSPseudoClass::Visited)
    } else if names_class(name, NonTSPseudoClass::Active) {
        Ok(NonTSPseudoClass::Active)
    } else if names_class(name, NonTSPseudoClass::Focus) {
        Ok(NonTSPseudoClass::Focus)
    } else if names_class(name, NonTSPseudoClass::Fullscreen) {
        Ok(NonTSPseudoClass::Fullscreen)
    } else if names_class(name, NonTSPseudoClass::Hover) {
        Ok(NonTSPseudoClass::Hover)
    } else if names_class(name, NonTSPseudoClass::Enabled) {
        Ok(NonTSPseudoClass::Enabled)
    } else if names_class(name, NonTSPseudoClass::Disabled) {
        Ok(NonTSPseudoClass::Disabled)
    } else if names_class(name, NonTSPseudoClass::Checked) {
        Ok(NonTSPseudoClass::Checked)
    } else if names_class(name, NonTSPseudoClass::Indeterminate) {
        Ok(NonTSPseudoClass::Indeterminate)
    } else if names_class(name, NonTSPseudoClass::ReadWrite) {
        Ok(NonTSPseudoClass::ReadWrite)
    } else if names_class(name, NonTSPseudoClass::ReadOnly) {
        Ok(NonTSPseudoClass::ReadOnly)
    } else {
        Err(PseudoError::NoMatch)
    }
}

impl NonTSPseudoClass {
    /// The serialised form, with its colon (`:hover`).
    pub fn css_text(&self) -> (r: &'static str)
        ensures
            r@ == css_text_of(*self),
    {
        match *self {
            NonTSPseudoClass::AnyLink => ":any-link",
            NonTSPseudoClass::Link => ":link",
            NonTSPseudoClass::Visited => ":visited",
            NonTSPseudoClass::Active => ":active",
            NonTSPseudoClass::Focus => ":focus",
            NonTSPseudoClass::Fullscreen => ":fullscreen",
            NonTSPseudoClass::Hover => ":hover",
            NonTSPseudoClass::Enabled => ":enabled",
            NonTSPseudoClass::Disabled => ":disabled",
            NonTSPseudoClass::Checked => ":checked",
            NonTSPseudoClass::Indeterminate => ":indeterminate",
            NonTSPseudoClass::ReadWrite => ":read-write",
            NonTSPseudoClass::ReadOnly => ":read-only",
        }
    }

    /// The element state that this pseudo-class matches on. `ReadOnly` and
    /// `ReadWrite` share the read-write bit; the link pseudo-classes depend
    /// on no element state.
    pub fn state_flag(&self) -> (r: ElementState)
        ensures
            r@ == state_bits_of(*self),
    {
        let bits: u16 = match *self {
            NonTSPseudoClass::Active => IN_ACTIVE_STATE,
            NonTSPseudoClass::Focus => IN_FOCUS_STATE,
            NonTSPseudoClass::Fullscreen => IN_FULLSCREEN_STATE,
            NonTSPseudoClass::Hover => IN_HOVER_STATE,
            NonTSPseudoClass::Enabled => IN_ENABLED_STATE,
            NonTSPseudoClass::Disabled => IN_DISABLED_STATE,
            NonTSPseudoClass::Checked => IN_CHECKED_STATE,
            NonTSPseudoClass::Indeterminate => IN_INDETERMINATE_STATE,
            NonTSPseudoClass::ReadOnly | NonTSPseudoClass::ReadWrite => IN_READ_WRITE_STATE,
            NonTSPseudoClass::AnyLink | NonTSPseudoClass::Link | NonTSPseudoClass::Visited => 0,
        };
        if bits == 0 {
            ElementState::empty()
        } else {
            ElementState::from_bits(bits)
        }
    }

    /// Whether `name` (without its colon) names this pseudo-class, ignoring ASCII case.
    pub fn is_named(&self, name: &str) -> (r: bool)
        ensures
            r == names_class(name.spec_bytes(), *self),
    {
        eq_ignore_ascii_case_from(name.as_bytes(), self.css_text().as_bytes(), 1)
    }

    /// Resolves a pseudo-class name (without its colon), ignoring ASCII case.
    pub fn resolve(name: &str) -> (r: Result<NonTSPseudoClass, PseudoError>)
        ensures
            r == resolve_spec(name.spec_bytes()),
    {
        if NonTSPseudoClass::AnyLink.is_named(name) {
            return Ok(NonTSPseudoClass::AnyLink);
        }
        if NonTSPseudoClass::Link.is_named(name) {
            return Ok(NonTSPseudoClass::Link);
        }
        if NonTSPseudoClass::Visited.is_named(name) {
            return Ok(NonTSPseudoClass::Visited);
        }
        if NonTSPseudoClass::Active.is_named(name) {
            return Ok(NonTSPseudoClass::Active);
        }
        if NonTSPseudoClass::Focus.is_named(name) {
            return Ok(NonTSPseudoClass::Focus);
        }
        if NonTSPseudoClass::Fullscreen.is_named(name) {
            return Ok(NonTSPseudoClass::Fullscreen);
        }
        if NonTSPseudoClass::Hover.is_named(name) {
            return Ok(NonTSPseudoClass::Hover);
        }
        if NonTSPseudoClass::Enabled.is_named(name) {
            return Ok(NonTSPseudoClass::Enabled);
        }
        if NonTSPseudoClass::Disabled.is_named(name) {
            return Ok(NonTSPseudoClass::Disabled);
        }
        if NonTSPseudoClass::Checked.is_named(name) {
            return Ok(NonTSPseudoClass::Checked);
        }
        if NonTSPseudoClass::Indeterminate.is_named(name) {
            return Ok(NonTSPseudoClass::Indeterminate);
        }
        if NonTSPseudoClass::ReadWrite.is_named(name) {
            return Ok(NonTSPseudoClass::ReadWrite);
        }
        if NonTSPseudoClass::ReadOnly.is_named(name) {
            return Ok(NonTSPseudoClass::ReadOnly);
        }
        Err(PseudoError::NoMatch)
    }
}

} // verus!
