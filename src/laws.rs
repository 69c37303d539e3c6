//! Properties that hold across the catalog, the classifier and the
//! pseudo-class table.
use vstd::prelude::*;
use crate::ascii::{ascii_fold, eq_ignore_case_from};
use crate::element_state::{is_single_bit, IN_READ_WRITE_STATE};
use crate::pseudo_class::{state_bits_of, NonTSPseudoClass};
use crate::pseudo_element::{
    catalog_wf, entry_matches, entry_view, lemma_match_unique, lookup_spec, text_bytes,
    PseudoElement,
};
use crate::selector_impl::{cascade_type_of, is_before_or_after, PseudoElementCascadeType};

verus! {

/// The name of a catalog entry: its text without the leading colon.
pub open spec fn entry_name(s: Seq<crate::pseudo_element::CatalogEntry>, i: int) -> Seq<u8> {
    text_bytes(s[i]).subrange(1, text_bytes(s[i]).len() as int)
}

/// Looking up the name of any entry with internal entries allowed gives that
/// entry back, with its identifier and its flag.
pub proof fn lemma_lookup_round_trip(s: Seq<crate::pseudo_element::CatalogEntry>, i: int)
    requires
        catalog_wf(s),
        0 <= i < s.len(),
    ensures
        lookup_spec(s, entry_name(s, i), true) == Some(entry_view(s[i])),
{
    let name = entry_name(s, i);
    assert(entry_matches(s[i], name, true));
    let k = choose|k: int| 0 <= k < s.len() && entry_matches(#[trigger] s[k], name, true);
    lemma_match_unique(s, name, true, true, i, k);
}

/// The name of an anonymous box resolves to nothing when internal entries
/// are not allowed.
pub proof fn lemma_internal_hidden(s: Seq<crate::pseudo_element::CatalogEntry>, i: int)
    requires
        catalog_wf(s),
        0 <= i < s.len(),
        s[i].is_anon_box,
    ensures
        lookup_spec(s, entry_name(s, i), false) is None,
{
    let name = entry_name(s, i);
    assert(entry_matches(s[i], name, true));
    if exists|k: int| 0 <= k < s.len() && entry_matches(#[trigger] s[k], name, false) {
        let k = choose|k: int| 0 <= k < s.len() && entry_matches(#[trigger] s[k], name, false);
        lemma_match_unique(s, name, true, false, i, k);
    }
}

/// A name that resolves in an ordinary stylesheet resolves to the same
/// pseudo-element in a user-agent one.
pub proof fn lemma_trusted_extends_untrusted(
    s: Seq<crate::pseudo_element::CatalogEntry>,
    name: Seq<u8>,
)
    requires
        catalog_wf(s),
        lookup_spec(s, name, false) is Some,
    ensures
        lookup_spec(s, name, true) == lookup_spec(s, name, false),
{
    let i = choose|k: int| 0 <= k < s.len() && entry_matches(#[trigger] s[k], name, false);
    assert(entry_matches(s[i], name, true));
    let j = choose|k: int| 0 <= k < s.len() && entry_matches(#[trigger] s[k], name, true);
    lemma_match_unique(s, name, false, true, i, j);
}

/// Names that differ only in the case of ASCII letters resolve alike.
pub proof fn lemma_lookup_ignores_case(
    s: Seq<crate::pseudo_element::CatalogEntry>,
    a: Seq<u8>,
    b: Seq<u8>,
    allow_internal: bool,
)
    requires
        catalog_wf(s),
        ascii_fold(a) == ascii_fold(b),
    ensures
        lookup_spec(s, a, allow_internal) == lookup_spec(s, b, allow_internal),
{
    assert forall|k: int| 0 <= k < s.len() implies (entry_matches(#[trigger] s[k], a, allow_internal)
        <==> entry_matches(s[k], b, allow_internal)) by {
        assert(eq_ignore_case_from(a, text_bytes(s[k]), 1) == eq_ignore_case_from(
            b,
            text_bytes(s[k]),
            1,
        ));
    }
    if exists|k: int| 0 <= k < s.len() && entry_matches(#[trigger] s[k], a, allow_internal) {
        let ka = choose|k: int| 0 <= k < s.len() && entry_matches(#[trigger] s[k], a, allow_internal);
        let kb = choose|k: int| 0 <= k < s.len() && entry_matches(#[trigger] s[k], b, allow_internal);
        assert(entry_matches(s[ka], b, allow_internal));
        lemma_match_unique(s, b, allow_internal, allow_internal, ka, kb);
    }
}

/// Equal pseudo-elements have the same cascade type.
pub proof fn lemma_cascade_type_deterministic(p: PseudoElement, q: PseudoElement)
    requires
        p == q,
    ensures
        cascade_type_of(p@) == cascade_type_of(q@),
{
}

/// `:before` and `:after` are eager whatever their flag.
pub proof fn lemma_before_after_eager(p: PseudoElement)
    requires
        is_before_or_after(p@),
    ensures
        cascade_type_of(p@) == PseudoElementCascadeType::Eager,
{
}

/// Every catalog entry other than `:before` and `:after` is precomputed when
/// it is an anonymous box and lazy otherwise.
pub proof fn lemma_entry_cascade_type(s: Seq<crate::pseudo_element::CatalogEntry>, i: int)
    requires
        0 <= i < s.len(),
        !is_before_or_after(entry_view(s[i])),
    ensures
        s[i].is_anon_box ==> cascade_type_of(entry_view(s[i])) == PseudoElementCascadeType::Precomputed,
        !s[i].is_anon_box ==> cascade_type_of(entry_view(s[i])) == PseudoElementCascadeType::Lazy,
{
}

/// Whether a pseudo-class is one of the two that share the read-write bit.
pub open spec fn is_read_write_pair(pc: NonTSPseudoClass) -> bool {
    pc == NonTSPseudoClass::ReadWrite || pc == NonTSPseudoClass::ReadOnly
}

/// Whether a pseudo-class is one of the link pseudo-classes.
pub open spec fn is_link_class(pc: NonTSPseudoClass) -> bool {
    pc == NonTSPseudoClass::AnyLink || pc == NonTSPseudoClass::Link || pc == NonTSPseudoClass::Visited
}

proof fn lemma_shift_bits(i: u16, j: u16)
    requires
        i < 16,
        j < 16,
    ensures
        (1u16 << i) != 0,
        (1u16 << i) & (((1u16 << i) - 1) as u16) == 0,
        i != j ==> (1u16 << i) & (1u16 << j) == 0,
{
    assert((1u16 << i) != 0) by (bit_vector)
        requires
            i < 16,
    ;
    assert((1u16 << i) & (((1u16 << i) - 1) as u16) == 0) by (bit_vector)
        requires
            i < 16,
    ;
    assert(i != j ==> (1u16 << i) & (1u16 << j) == 0) by (bit_vector)
        requires
            i < 16,
            j < 16,
    ;
}

/// The position of a pseudo-class's state bit, if it has one.
spec fn bit_index(pc: NonTSPseudoClass) -> u16 {
    match pc {
        NonTSPseudoClass::Active => 0,
        NonTSPseudoClass::Focus => 1,
        NonTSPseudoClass::Fullscreen => 2,
        NonTSPseudoClass::Hover => 3,
        NonTSPseudoClass::Enabled => 4,
        NonTSPseudoClass::Disabled => 5,
        NonTSPseudoClass::Checked => 6,
        NonTSPseudoClass::Indeterminate => 7,
        _ => 8,
    }
}

proof fn lemma_state_bits_shift(pc: NonTSPseudoClass)
    requires
        !is_link_class(pc),
    ensures
        state_bits_of(pc) == 1u16 << bit_index(pc),
{
    assert(1u16 << 0u16 == 1) by (bit_vector);
    assert(1u16 << 1u16 == 2) by (bit_vector);
    assert(1u16 << 2u16 == 4) by (bit_vector);
    assert(1u16 << 3u16 == 8) by (bit_vector);
    assert(1u16 << 4u16 == 16) by (bit_vector);
    assert(1u16 << 5u16 == 32) by (bit_vector);
    assert(1u16 << 6u16 == 64) by (bit_vector);
    assert(1u16 << 7u16 == 128) by (bit_vector);
    assert(1u16 << 8u16 == 256) by (bit_vector);
}

/// Each pseudo-class other than the link ones matches on exactly one state
/// bit; the link ones match on none; two different pseudo-classes share a
/// bit only when they are `ReadOnly` and `ReadWrite`, which share exactly the
/// read-write bit.
pub proof fn lemma_state_flags(a: NonTSPseudoClass, b: NonTSPseudoClass)
    ensures
        is_link_class(a) ==> state_bits_of(a) == 0,
        !is_link_class(a) ==> is_single_bit(state_bits_of(a)),
        a != b ==> (state_bits_of(a) & state_bits_of(b) != 0 <==> is_read_write_pair(a)
            && is_read_write_pair(b)),
        is_read_write_pair(a) ==> state_bits_of(a) == IN_READ_WRITE_STATE,
{
    if !is_link_class(a) {
        lemma_state_bits_shift(a);
        lemma_shift_bits(bit_index(a), bit_index(b));
    }
    if !is_link_class(a) && !is_link_class(b) {
        lemma_state_bits_shift(b);
    }
    let x = state_bits_of(a);
    let y = state_bits_of(b);
    assert(x & 0 == 0) by (bit_vector);
    assert(0 & y == 0) by (bit_vector);
    assert(x & x == x) by (bit_vector);
}

} // verus!
