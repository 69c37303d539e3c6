//! Resolution of CSS pseudo-class and pseudo-element names into typed
//! identifiers, and the policies attached to them: which names only
//! user-agent stylesheets may use, when a pseudo-element's style is computed,
//! which element state a pseudo-class depends on, and which attribute
//! selectors keep style sharing possible.
pub mod ascii;
pub mod element_state;
pub mod error;
pub mod laws;
pub mod namespaces;
pub mod pseudo_class;
pub mod pseudo_element;
pub mod selector_impl;
