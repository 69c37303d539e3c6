//! The host side of selector parsing: cascade classification of
//! pseudo-elements, attribute-selector shareability, and the parser that
//! ties the catalogs and the namespace table together.
use vstd::prelude::*;
use vstd::string::StringSliceAdditionalSpecFns;
use crate::element_state::ElementState;
use crate::error::PseudoError;
use crate::namespaces::NamespaceTable;
use crate::pseudo_class::{resolve_spec, state_bits_of, NonTSPseudoClass};
use crate::pseudo_element::{
    entry_view, lookup_spec, PseudoCatalog, PseudoElement, AFTER_ATOM, BEFORE_ATOM,
};

verus! {

/// When the style of a pseudo-element is computed.
#[derive(Clone, Copy, Debug, PartialEq, Eq, Hash, Structural)]
pub enum PseudoElementCascadeType {
    /// Before layout, with the style of its element.
    Eager,
    /// Once, ahead of matching, from a fixed rule set.
    Precomputed,
    /// On demand, for the elements that need it.
    Lazy,
}

/// Whether a pseudo-element is `:before` or `:after`.
pub open spec fn is_before_or_after(p: (u32, bool)) -> bool {
    p.0 == BEFORE_ATOM || p.0 == AFTER_ATOM
}

/// The cascade type of a pseudo-element: `:before` and `:after` first, then
/// anonymous boxes, then the rest.
pub open spec fn cascade_type_of(p: (u32, bool)) -> PseudoElementCascadeType {
    if is_before_or_after(p) {
        PseudoElementCascadeType::Eager
    } else if p.1 {
        PseudoElementCascadeType::Precomputed
    } else {
        PseudoElementCascadeType::Lazy
    }
}

/// What an attribute selector tests: the interned attribute name and
/// whether its value is compared with case.
#[derive(Clone, Copy, Debug, PartialEq, Eq, Hash, Structural)]
pub struct AttrSelector {
    pub name: u32,
    pub case_sensitive: bool,
}

/// Which attribute selectors leave style sharing possible: those that test
/// only the presence of an attribute in `present`, and those that compare an
/// attribute with a value listed with it in `equal`.
pub struct SharingPolicy {
    pub present: Vec<u32>,
    pub equal: Vec<(u32, u32)>,
}

/// Whether a presence test of `a` keeps style sharing possible.
pub open spec fn exists_shareable(policy: SharingPolicy, a: AttrSelector) -> bool {
    policy.present@.contains(a.name)
}

/// Whether comparing `a` with `value` keeps style sharing possible.
pub open spec fn equals_shareable(policy: SharingPolicy, a: AttrSelector, value: u32) -> bool {
    policy.equal@.contains((a.name, value))
}

/// The host's selector implementation.
#[derive(Clone, Copy, Debug, PartialEq, Eq, Structural)]
pub struct SelectorImpl;

impl SelectorImpl {
    /// Whether `pseudo` is `:before` or `:after`.
    pub fn pseudo_is_before_or_after(pseudo: &PseudoElement) -> (r: bool)
        ensures
            r == is_before_or_after(pseudo@),
    {
        pseudo.as_atom() == BEFORE_ATOM || pseudo.as_atom() == AFTER_ATOM
    }

    /// When the style of `pseudo` is computed.
    pub fn pseudo_element_cascade_type(pseudo: &PseudoElement) -> (r: PseudoElementCascadeType)
        ensures
            r == cascade_type_of(pseudo@),
    {
        if Self::pseudo_is_before_or_after(pseudo) {
            return PseudoElementCascadeType::Eager;
        }
        if pseudo.is_anon_box() {
            return PseudoElementCascadeType::Precomputed;
        }
        PseudoElementCascadeType::Lazy
    }

    /// Every pseudo-element of the catalog, in the catalog's order.
    pub fn each_pseudo_element(catalog: &PseudoCatalog) -> (r: Vec<PseudoElement>)
        ensures
            r@.len() == catalog@.len(),
            forall|i: int| 0 <= i < r@.len() ==> (#[trigger] r@[i])@ == entry_view(catalog@[i]),
    {
        let mut out: Vec<PseudoElement> = Vec::new();
        let n = catalog.len();
        let mut i: usize = 0;
        while i < n
            invariant
                n == catalog@.len(),
                0 <= i <= n,
                out@.len() == i,
                forall|j: int| 0 <= j < i ==> (#[trigger] out@[j])@ == entry_view(catalog@[j]),
            decreases n - i,
        {
            out.push(catalog.get(i));
            i = i + 1;
        }
        out
    }

    /// The element state that `pc` matches on.
    pub fn pseudo_class_state_flag(pc: &NonTSPseudoClass) -> (r: ElementState)
        ensures
            r@ == state_bits_of(*pc),
    {
        pc.state_flag()
    }

    /// Whether a presence test of `attr_selector` keeps style sharing possible.
    pub fn attr_exists_selector_is_shareable(
        policy: &SharingPolicy,
        attr_selector: &AttrSelector,
    ) -> (r: bool)
        ensures
            r == exists_shareable(*policy, *attr_selector),
    {
        let mut i: usize = 0;
        while i < policy.present.len()
            invariant
                0 <= i <= policy.present@.len(),
                forall|j: int| 0 <= j < i ==> policy.present@[j] != attr_selector.name,
            decreases policy.present@.len() - i,
        {
            if policy.present[i] == attr_selector.name {
                return true;
            }
            i = i + 1;
        }
        false
    }

    /// Whether comparing `attr_selector` with `value` keeps style sharing possible.
    pub fn attr_equals_selector_is_shareable(
        policy: &SharingPolicy,
        attr_selector: &AttrSelector,
        value: u32,
    ) -> (r: bool)
        ensures
            r == equals_shareable(*policy, *attr_selector, value),
    {
        let mut i: usize = 0;
        while i < policy.equal.len()
            invariant
                0 <= i <= policy.equal@.len(),
                forall|j: int| 0 <= j < i ==> policy.equal@[j] != (attr_selector.name, value),
            decreases policy.equal@.len() - i,
        {
            let (attr, v) = policy.equal[i];
            if attr == attr_selector.name && v == value {
                proof {
                    assert(policy.equal@[i as int] == (attr_selector.name, value));
                }
                return true;
            }
            i = i + 1;
        }
        false
    }
}

/// Parses pseudo-classes and pseudo-elements for one stylesheet: user-agent
/// stylesheets may name anonymous boxes, others may not.
pub struct SelectorParser<'a> {
    pub catalog: &'a PseudoCatalog,
    pub namespaces: &'a NamespaceTable,
    pub in_ua_stylesheet: bool,
}

impl<'a> SelectorParser<'a> {
    /// Whether the stylesheet being parsed is a user-agent (internal) one.
    pub fn in_user_agent_stylesheet(&self) -> (r: bool)
        ensures
            r == self.in_ua_stylesheet,
    {
        self.in_ua_stylesheet
    }

    /// Resolves a pseudo-class name without its colon, ignoring ASCII case.
    pub fn parse_non_ts_pseudo_class(&self, name: &str) -> (r: Result<NonTSPseudoClass, PseudoError>)
        ensures
            r == resolve_spec(name.spec_bytes()),
    {
        NonTSPseudoClass::resolve(name)
    }

    /// Resolves a pseudo-element name without its colon, ignoring ASCII case;
    /// anonymous boxes resolve only in a user-agent stylesheet.
    pub fn parse_pseudo_element(&self, name: &str) -> (r: Result<PseudoElement, PseudoError>)
        ensures
            r matches Ok(p) ==> lookup_spec(self.catalog@, name.spec_bytes(), self.in_ua_stylesheet)
                == Some(p@),
            r matches Err(e) ==> e == PseudoError::NoMatch && lookup_spec(
                self.catalog@,
                name.spec_bytes(),
                self.in_ua_stylesheet,
            ) is None,
    {
        match PseudoElement::from_slice(self.catalog, name, self.in_user_agent_stylesheet()) {
            Some(pseudo) => Ok(pseudo),
            None => Err(PseudoError::NoMatch),
        }
    }

    /// The default namespace of the stylesheet.
    pub fn default_namespace(&self) -> (r: Option<String>)
        ensures
            (match r {
                Some(u) => Some(u@),
                None => None::<Seq<char>>,
            }) == self.namespaces.default_spec(),
    {
        self.namespaces.default_namespace()
    }

    /// The namespace URL registered for `prefix`.
    pub fn namespace_for_prefix(&self, prefix: u32) -> (r: Option<String>)
        ensures
            (match r {
                Some(u) => Some(u@),
                None => None::<Seq<char>>,
            }) == self.namespaces.lookup_spec(prefix),
    {
        self.namespaces.namespace_for_prefix(prefix)
    }
}

} // verus!
