use gecko_selectors::ascii::eq_ignore_ascii_case_from;
use gecko_selectors::element_state::{
    ElementState, IN_ACTIVE_STATE, IN_HOVER_STATE, IN_READ_WRITE_STATE,
};
use gecko_selectors::error::PseudoError;
use gecko_selectors::namespaces::NamespaceTable;
use gecko_selectors::pseudo_class::NonTSPseudoClass;
use gecko_selectors::pseudo_element::{
    CatalogEntry, PseudoCatalog, PseudoElement, AFTER_ATOM, BEFORE_ATOM,
};
use gecko_selectors::selector_impl::{
    AttrSelector, PseudoElementCascadeType, SelectorImpl, SelectorParser, SharingPolicy,
};

const BOX_ATOM: u32 = 7;
const FIRST_LINE_ATOM: u32 = 2;
const HOVER_CLASS_ATOM: u32 = 9;

fn entry(text: &str, atom: u32, is_anon_box: bool) -> CatalogEntry {
    CatalogEntry { text: text.to_string(), atom, is_anon_box }
}

fn sample_entries() -> Vec<CatalogEntry> {
    vec![
        entry(":before", BEFORE_ATOM, false),
        entry(":after", AFTER_ATOM, false),
        entry(":first-line", FIRST_LINE_ATOM, false),
        entry(":-internal-box", BOX_ATOM, true),
        entry(":-moz-table-wrapper", 11, true),
    ]
}

fn sample_catalog() -> PseudoCatalog {
    PseudoCatalog::new(sample_entries()).expect("well-formed catalog")
}

const ALL_CLASSES: [NonTSPseudoClass; 13] = [
    NonTSPseudoClass::AnyLink,
    NonTSPseudoClass::Link,
    NonTSPseudoClass::Visited,
    NonTSPseudoClass::Active,
    NonTSPseudoClass::Focus,
    NonTSPseudoClass::Fullscreen,
    NonTSPseudoClass::Hover,
    NonTSPseudoClass::Enabled,
    NonTSPseudoClass::Disabled,
    NonTSPseudoClass::Checked,
    NonTSPseudoClass::Indeterminate,
    NonTSPseudoClass::ReadWrite,
    NonTSPseudoClass::ReadOnly,
];

#[test]
fn lookup_round_trips_every_entry() {
    let catalog = sample_catalog();
    for e in sample_entries() {
        let p = catalog.lookup_by_text(&e.text[1..], true).expect("entry found");
        assert_eq!(p.as_atom(), e.atom);
        assert_eq!(p.is_anon_box(), e.is_anon_box);
    }
}

#[test]
fn internal_entries_hidden_from_untrusted_lookup() {
    let catalog = sample_catalog();
    assert_eq!(catalog.lookup_by_text("-internal-box", false), None);
    assert_eq!(catalog.lookup_by_text("-moz-table-wrapper", false), None);
    assert!(catalog.lookup_by_text("first-line", false).is_some());
}

#[test]
fn lookup_ignores_ascii_case() {
    let catalog = sample_catalog();
    let upper = catalog.lookup_by_text("BEFORE", true);
    let lower = catalog.lookup_by_text("before", true);
    assert_eq!(upper, lower);
    assert_eq!(upper.unwrap().as_atom(), BEFORE_ATOM);
    assert_eq!(catalog.lookup_by_text("First-Line", false).unwrap().as_atom(), FIRST_LINE_ATOM);
}

#[test]
fn lookup_misses() {
    let catalog = sample_catalog();
    assert_eq!(catalog.lookup_by_text("", true), None);
    assert_eq!(catalog.lookup_by_text(":before", true), None);
    assert_eq!(catalog.lookup_by_text("befor", true), None);
    assert_eq!(catalog.lookup_by_text("beforex", true), None);
}

#[test]
fn non_ascii_bytes_compare_exactly() {
    assert!(eq_ignore_ascii_case_from("É".as_bytes(), "É".as_bytes(), 0));
    assert!(!eq_ignore_ascii_case_from("é".as_bytes(), "É".as_bytes(), 0));
    assert!(eq_ignore_ascii_case_from(b"AbC", b":abc", 1));
    assert!(!eq_ignore_ascii_case_from(b"abc", b":abc", 5));
}

#[test]
fn cascade_type_is_deterministic() {
    let catalog = sample_catalog();
    for p in SelectorImpl::each_pseudo_element(&catalog) {
        let copy = p;
        assert_eq!(
            SelectorImpl::pseudo_element_cascade_type(&p),
            SelectorImpl::pseudo_element_cascade_type(&copy)
        );
    }
}

#[test]
fn before_and_after_are_eager() {
    let before = PseudoElement::from_atom_unchecked(BEFORE_ATOM, false);
    let after = PseudoElement::from_atom_unchecked(AFTER_ATOM, false);
    assert!(SelectorImpl::pseudo_is_before_or_after(&before));
    assert!(SelectorImpl::pseudo_is_before_or_after(&after));
    assert_eq!(SelectorImpl::pseudo_element_cascade_type(&before), PseudoElementCascadeType::Eager);
    assert_eq!(SelectorImpl::pseudo_element_cascade_type(&after), PseudoElementCascadeType::Eager);
}

#[test]
fn before_flagged_internal_is_still_eager() {
    let catalog = PseudoCatalog::new(vec![entry(":before", BEFORE_ATOM, true)]).unwrap();
    let p = catalog.lookup_by_text("before", true).unwrap();
    assert!(p.is_anon_box());
    assert_eq!(SelectorImpl::pseudo_element_cascade_type(&p), PseudoElementCascadeType::Eager);
}

#[test]
fn internal_entries_are_precomputed() {
    let catalog = sample_catalog();
    let boxed = catalog.lookup_by_text("-internal-box", true).unwrap();
    assert_eq!(SelectorImpl::pseudo_element_cascade_type(&boxed), PseudoElementCascadeType::Precomputed);
    let wrapper = catalog.lookup_by_text("-moz-table-wrapper", true).unwrap();
    assert_eq!(SelectorImpl::pseudo_element_cascade_type(&wrapper), PseudoElementCascadeType::Precomputed);
}

#[test]
fn public_entries_are_lazy() {
    let catalog = sample_catalog();
    let p = catalog.lookup_by_text("first-line", false).unwrap();
    assert!(!SelectorImpl::pseudo_is_before_or_after(&p));
    assert_eq!(SelectorImpl::pseudo_element_cascade_type(&p), PseudoElementCascadeType::Lazy);
}

#[test]
fn resolve_hover() {
    assert_eq!(NonTSPseudoClass::resolve("hover"), Ok(NonTSPseudoClass::Hover));
    assert_eq!(NonTSPseudoClass::resolve("HoVeR"), Ok(NonTSPseudoClass::Hover));
    let flag = NonTSPseudoClass::Hover.state_flag();
    assert_eq!(flag, ElementState::from_bits(IN_HOVER_STATE));
    assert_ne!(flag.bits(), 0);
    assert_eq!(flag.bits() & (flag.bits() - 1), 0);
}

#[test]
fn state_bits_are_disjoint_but_for_read_write() {
    for a in ALL_CLASSES {
        for b in ALL_CLASSES {
            if a == b {
                continue;
            }
            let shared = a.state_flag().intersects(b.state_flag());
            let pair = |c: NonTSPseudoClass| c == NonTSPseudoClass::ReadOnly || c == NonTSPseudoClass::ReadWrite;
            assert_eq!(shared, pair(a) && pair(b), "{:?} {:?}", a, b);
        }
    }
    assert_eq!(NonTSPseudoClass::ReadOnly.state_flag().bits(), IN_READ_WRITE_STATE);
    assert_eq!(NonTSPseudoClass::ReadWrite.state_flag().bits(), IN_READ_WRITE_STATE);
}

#[test]
fn resolve_unknown_name() {
    assert_eq!(NonTSPseudoClass::resolve("not-a-real-pseudo-class"), Err(PseudoError::NoMatch));
    assert_eq!(NonTSPseudoClass::resolve(":hover"), Err(PseudoError::NoMatch));
    assert_eq!(NonTSPseudoClass::resolve(""), Err(PseudoError::NoMatch));
}

#[test]
fn every_class_resolves_from_its_text() {
    for pc in ALL_CLASSES {
        let text = pc.css_text();
        assert_eq!(NonTSPseudoClass::resolve(&text[1..]), Ok(pc));
        assert_eq!(NonTSPseudoClass::resolve(&text[1..].to_ascii_uppercase()), Ok(pc));
    }
    assert_eq!(NonTSPseudoClass::ReadOnly.css_text(), ":read-only");
    assert_eq!(NonTSPseudoClass::AnyLink.css_text(), ":any-link");
}

#[test]
fn link_classes_have_no_state() {
    assert!(NonTSPseudoClass::AnyLink.state_flag().is_empty());
    assert!(NonTSPseudoClass::Link.state_flag().is_empty());
    assert!(NonTSPseudoClass::Visited.state_flag().is_empty());
    assert_eq!(NonTSPseudoClass::Link.state_flag(), ElementState::empty());
    assert_eq!(
        SelectorImpl::pseudo_class_state_flag(&NonTSPseudoClass::Active).bits(),
        IN_ACTIVE_STATE
    );
}

#[test]
fn element_state_set_operations() {
    let both = ElementState::from_bits(IN_ACTIVE_STATE | IN_HOVER_STATE);
    assert!(both.contains(ElementState::from_bits(IN_HOVER_STATE)));
    assert!(!ElementState::from_bits(IN_HOVER_STATE).contains(both));
    assert!(both.intersects(ElementState::from_bits(IN_ACTIVE_STATE)));
    assert!(!both.intersects(ElementState::from_bits(IN_READ_WRITE_STATE)));
    assert!(!both.is_empty());
}

#[test]
fn namespace_lookup() {
    let mut table = NamespaceTable::new(Some("http://www.w3.org/1999/xhtml".to_string()));
    assert_eq!(table.namespace_for_prefix(3), None);
    table.add_prefix(3, "http://www.w3.org/2000/svg".to_string());
    table.add_prefix(4, "http://www.w3.org/1998/Math/MathML".to_string());
    assert_eq!(table.namespace_for_prefix(3), Some("http://www.w3.org/2000/svg".to_string()));
    assert_eq!(table.namespace_for_prefix(5), None);
    table.add_prefix(3, "urn:other".to_string());
    assert_eq!(table.namespace_for_prefix(3), Some("urn:other".to_string()));
    assert_eq!(table.namespace_for_prefix(4), Some("http://www.w3.org/1998/Math/MathML".to_string()));
    assert_eq!(table.default_namespace(), Some("http://www.w3.org/1999/xhtml".to_string()));
    assert_eq!(NamespaceTable::new(None).default_namespace(), None);
}

#[test]
fn trusted_and_untrusted_parsing() {
    let catalog = PseudoCatalog::new(vec![
        entry(":before", BEFORE_ATOM, false),
        entry(":-internal-box", BOX_ATOM, true),
    ])
    .unwrap();
    let mut namespaces = NamespaceTable::new(None);
    namespaces.add_prefix(HOVER_CLASS_ATOM, "urn:x".to_string());
    let trusted = SelectorParser { catalog: &catalog, namespaces: &namespaces, in_ua_stylesheet: true };
    let untrusted = SelectorParser { catalog: &catalog, namespaces: &namespaces, in_ua_stylesheet: false };
    assert!(trusted.in_user_agent_stylesheet());
    assert!(!untrusted.in_user_agent_stylesheet());

    for parser in [&trusted, &untrusted] {
        let before = parser.parse_pseudo_element("before").unwrap();
        assert_eq!(before.as_atom(), BEFORE_ATOM);
        assert_eq!(SelectorImpl::pseudo_element_cascade_type(&before), PseudoElementCascadeType::Eager);
    }
    let boxed = trusted.parse_pseudo_element("-internal-box").unwrap();
    assert_eq!(boxed.as_atom(), BOX_ATOM);
    assert_eq!(untrusted.parse_pseudo_element("-internal-box"), Err(PseudoError::NoMatch));

    let hover = trusted.parse_non_ts_pseudo_class("HOVER").unwrap();
    assert_eq!(hover, NonTSPseudoClass::Hover);
    assert_eq!(hover.state_flag().bits(), IN_HOVER_STATE);
    assert_eq!(untrusted.parse_non_ts_pseudo_class("nope"), Err(PseudoError::NoMatch));

    assert_eq!(trusted.default_namespace(), None);
    assert_eq!(trusted.namespace_for_prefix(HOVER_CLASS_ATOM), Some("urn:x".to_string()));
    assert_eq!(trusted.namespace_for_prefix(1), None);
}

#[test]
fn catalog_rejects_bad_tables() {
    assert!(PseudoCatalog::new(vec![entry("before", BEFORE_ATOM, false)]).is_none());
    assert!(PseudoCatalog::new(vec![entry("", BEFORE_ATOM, false)]).is_none());
    assert!(PseudoCatalog::new(vec![entry(":a", 5, false), entry(":b", 5, false)]).is_none());
    assert!(PseudoCatalog::new(vec![entry(":a", 5, false), entry(":A", 6, false)]).is_none());
    assert!(PseudoCatalog::new(vec![entry(":a", 5, false), entry(":b", 6, true)]).is_some());
    assert!(PseudoCatalog::new(Vec::new()).is_some());
}

#[test]
fn checked_construction() {
    let catalog = sample_catalog();
    let p = PseudoElement::from_atom_checked(&catalog, BOX_ATOM, true).unwrap();
    assert_eq!(p, PseudoElement::from_atom_unchecked(BOX_ATOM, true));
    assert_eq!(
        PseudoElement::from_atom_checked(&catalog, BOX_ATOM, false),
        Err(PseudoError::InternalConsistencyViolation)
    );
    assert_eq!(PseudoElement::from_atom_checked(&catalog, 99, false), Err(PseudoError::NoMatch));
    assert_eq!(PseudoElement::from_atom(&catalog, FIRST_LINE_ATOM).unwrap().as_atom(), FIRST_LINE_ATOM);
    assert_eq!(catalog.lookup_by_atom(99), None);
}

#[test]
fn pseudo_element_serialisation() {
    let catalog = sample_catalog();
    let before = PseudoElement::from_atom_unchecked(BEFORE_ATOM, false);
    assert_eq!(before.to_css(&catalog), Some("::before".to_string()));
    assert_eq!(PseudoElement::from_atom_unchecked(42, false).to_css(&catalog), None);
}

#[test]
fn each_pseudo_element_in_catalog_order() {
    let catalog = sample_catalog();
    let all = SelectorImpl::each_pseudo_element(&catalog);
    let atoms: Vec<u32> = all.iter().map(|p| p.as_atom()).collect();
    assert_eq!(atoms, vec![BEFORE_ATOM, AFTER_ATOM, FIRST_LINE_ATOM, BOX_ATOM, 11]);
    assert_eq!(catalog.len(), 5);
    assert_eq!(catalog.get(3), PseudoElement::from_atom_unchecked(BOX_ATOM, true));
}

#[test]
fn attribute_shareability() {
    let policy = SharingPolicy { present: vec![20, 21], equal: vec![(30, 1), (31, 2)] };
    let sel = |name: u32| AttrSelector { name, case_sensitive: true };
    assert!(SelectorImpl::attr_exists_selector_is_shareable(&policy, &sel(21)));
    assert!(!SelectorImpl::attr_exists_selector_is_shareable(&policy, &sel(30)));
    assert!(SelectorImpl::attr_equals_selector_is_shareable(&policy, &sel(31), 2));
    assert!(!SelectorImpl::attr_equals_selector_is_shareable(&policy, &sel(31), 1));
    assert!(!SelectorImpl::attr_equals_selector_is_shareable(&policy, &sel(20), 1));
}
