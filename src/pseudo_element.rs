//! Pseudo-elements and the catalog that names them.
use vstd::prelude::*;
use vstd::utf8::encode_utf8;
use vstd::string::StringSliceAdditionalSpecFns;
use vstd::string::StringExecFns;
use crate::ascii::{ascii_fold, eq_ignore_ascii_case_from, eq_ignore_case_from};
use crate::error::PseudoError;

verus! {

/// The interned identifier of the `:before` pseudo-element.
pub const BEFORE_ATOM: u32 = 0;
/// The interned identifier of the `:after` pseudo-element.
pub const AFTER_ATOM: u32 = 1;

/// One record of the catalog: the canonical text with its colon
/// (`:first-line`), the interned identifier, and whether the pseudo-element
/// is an anonymous box, which only internal stylesheets may name.
#[derive(Debug)]
pub struct CatalogEntry {
    pub text: String,
    pub atom: u32,
    pub is_anon_box: bool,
}

/// A pseudo-element: its identifier and whether it is an anonymous box.
#[derive(Clone, Copy, Debug, PartialEq, Eq, Hash, Structural)]
pub struct PseudoElement {
    atom: u32,
    is_anon_box: bool,
}

impl View for PseudoElement {
    type V = (u32, bool);

    closed spec fn view(&self) -> (u32, bool) {
        (self.atom, self.is_anon_box)
    }
}

/// The UTF-8 bytes of an entry's text.
pub open spec fn text_bytes(e: CatalogEntry) -> Seq<u8> {
    encode_utf8(e.text@)
}

/// The pseudo-element that an entry describes.
pub open spec fn entry_view(e: CatalogEntry) -> (u32, bool) {
    (e.atom, e.is_anon_box)
}

/// Whether an entry can be named when internal entries are allowed or not.
pub open spec fn is_visible(e: CatalogEntry, allow_internal: bool) -> bool {
    allow_internal || !e.is_anon_box
}

/// Whether `name`, without a colon, names entry `e` under the given trust mode.
pub open spec fn entry_matches(e: CatalogEntry, name: Seq<u8>, allow_internal: bool) -> bool {
    is_visible(e, allow_internal) && eq_ignore_case_from(name, text_bytes(e), 1)
}

/// A well-formed catalog: every text starts with a colon, no two texts are
/// equal up to ASCII case, and no two identifiers are equal.
pub open spec fn catalog_wf(s: Seq<CatalogEntry>) -> bool {
    &&& forall|i: int|
        0 <= i < s.len() ==> text_bytes(#[trigger] s[i]).len() >= 1 && text_bytes(s[i])[0] == 58u8
    &&& forall|i: int, j: int|
        0 <= i < s.len() && 0 <= j < s.len() && i != j ==> #[trigger] s[i].atom != #[trigger] s[j].atom
    &&& forall|i: int, j: int|
        0 <= i < s.len() && 0 <= j < s.len() && i != j ==> ascii_fold(text_bytes(#[trigger] s[i]))
            != ascii_fold(text_bytes(#[trigger] s[j]))
}

/// The pseudo-element that `name` names in catalog `s`, if any.
pub open spec fn lookup_spec(s: Seq<CatalogEntry>, name: Seq<u8>, allow_internal: bool) -> Option<
    (u32, bool),
> {
    if exists|i: int| 0 <= i < s.len() && entry_matches(#[trigger] s[i], name, allow_internal) {
        let i = choose|i: int| 0 <= i < s.len() && entry_matches(#[trigger] s[i], name, allow_internal);
        Some(entry_view(s[i]))
    } else {
        None
    }
}

/// The pseudo-element with identifier `atom` in catalog `s`, if any.
pub open spec fn atom_lookup_spec(s: Seq<CatalogEntry>, atom: u32) -> Option<(u32, bool)> {
    if exists|i: int| 0 <= i < s.len() && (#[trigger] s[i]).atom == atom {
        let i = choose|i: int| 0 <= i < s.len() && (#[trigger] s[i]).atom == atom;
        Some(entry_view(s[i]))
    } else {
        None
    }
}

/// The text of the entry with identifier `atom` in catalog `s`, if any.
pub open spec fn atom_text_spec(s: Seq<CatalogEntry>, atom: u32) -> Option<Seq<char>> {
    if exists|i: int| 0 <= i < s.len() && (#[trigger] s[i]).atom == atom {
        let i = choose|i: int| 0 <= i < s.len() && (#[trigger] s[i]).atom == atom;
        Some(s[i].text@)
    } else {
        None
    }
}

/// In a well-formed catalog a name matches at most one entry.
pub proof fn lemma_match_unique(
    s: Seq<CatalogEntry>,
    name: Seq<u8>,
    allow_a: bool,
    allow_b: bool,
    i: int,
    j: int,
)
    requires
        catalog_wf(s),
        0 <= i < s.len(),
        0 <= j < s.len(),
        entry_matches(s[i], name, allow_a),
        entry_matches(s[j], name, allow_b),
    ensures
        i == j,
{
    if i != j {
        let ti = text_bytes(s[i]);
        let tj = text_bytes(s[j]);
        let ui = ti.subrange(1, ti.len() as int);
        let uj = tj.subrange(1, tj.len() as int);
        assert(ascii_fold(ui) == ascii_fold(uj));
        assert forall|k: int| 0 <= k < ti.len() implies ascii_fold(ti)[k] == ascii_fold(tj)[k] by {
            if k > 0 {
                assert(ascii_fold(ui)[k - 1] == ascii_fold(uj)[k - 1]);
            }
        }
        assert(ascii_fold(ti) =~= ascii_fold(tj));
    }
}

/// The fixed table of pseudo-elements: a well-formed list of entries.
pub struct PseudoCatalog {
    entries: Vec<CatalogEntry>,
}

impl View for PseudoCatalog {
    type V = Seq<CatalogEntry>;

    closed spec fn view(&self) -> Seq<CatalogEntry> {
        self.entries@
    }
}

impl PseudoCatalog {
    #[verifier::type_invariant]
    spec fn inv(&self) -> bool {
        catalog_wf(self.entries@)
    }

    /// Builds a catalog from its entries, in order; `None` when they are not
    /// well formed.
    pub fn new(entries: Vec<CatalogEntry>) -> (r: Option<PseudoCatalog>)
        ensures
            r is Some <==> catalog_wf(entries@),
            r matches Some(c) ==> c@ == entries@,
    {
        let n = entries.len();
        let mut i: usize = 0;
        while i < n
            invariant
                n == entries@.len(),
                0 <= i <= n,
                forall|a: int|
                    0 <= a < i ==> text_bytes(#[trigger] entries@[a]).len() >= 1 && text_bytes(
                        entries@[a],
                    )[0] == 58u8,
                forall|a: int, b: int|
                    0 <= a < i && 0 <= b < i && a != b ==> #[trigger] entries@[a].atom
                        != #[trigger] entries@[b].atom,
                forall|a: int, b: int|
                    0 <= a < i && 0 <= b < i && a != b ==> ascii_fold(
                        text_bytes(#[trigger] entries@[a]),
                    ) != ascii_fold(text_bytes(#[trigger] entries@[b])),
            decreases n - i,
        {
            let ti = entries[i].text.as_str().as_bytes();
            if ti.len() == 0 || ti[0] != 58u8 {
                return None;
            }
            let mut j: usize = 0;
            while j < i
                invariant
                    n == entries@.len(),
                    0 <= j <= i < n,
                    ti@ == text_bytes(entries@[i as int]),
                    forall|b: int|
                        0 <= b < j ==> entries@[i as int].atom != #[trigger] entries@[b].atom,
                    forall|b: int|
                        0 <= b < j ==> ascii_fold(text_bytes(entries@[i as int])) != ascii_fold(
                            text_bytes(#[trigger] entries@[b]),
                        ),
                decreases i - j,
            {
                if entries[j].atom == entries[i].atom {
                    return None;
                }
                let tj = entries[j].text.as_str().as_bytes();
                if eq_ignore_ascii_case_from(ti, tj, 0) {
                    proof {
                        assert(tj@.subrange(0, tj@.len() as int) =~= tj@);
                    }
                    return None;
                }
                proof {
                    assert(tj@.subrange(0, tj@.len() as int) =~= tj@);
                }
                j = j + 1;
            }
            i = i + 1;
        }
        Some(PseudoCatalog { entries })
    }

    /// The number of entries.
    pub fn len(&self) -> (r: usize)
        ensures
            r == self@.len(),
    {
        self.entries.len()
    }

    /// The pseudo-element of entry `i`.
    pub fn get(&self, i: usize) -> (r: PseudoElement)
        requires
            i < self@.len(),
        ensures
            r@ == entry_view(self@[i as int]),
    {
        let e = &self.entries[i];
        PseudoElement { atom: e.atom, is_anon_box: e.is_anon_box }
    }

    /// Looks up a pseudo-element by its name without the colon, ignoring
    /// ASCII case; anonymous boxes count as absent unless `allow_internal`.
    pub fn lookup_by_text(&self, name: &str, allow_internal: bool) -> (r: Option<PseudoElement>)
        ensures
            r matches Some(p) ==> lookup_spec(self@, name.spec_bytes(), allow_internal) == Some(p@),
            r is None ==> lookup_spec(self@, name.spec_bytes(), allow_internal) is None,
    {
        proof {
            use_type_invariant(self);
        }
        let nb = name.as_bytes();
        let mut i: usize = 0;
        while i < self.entries.len()
            invariant
                catalog_wf(self.entries@),
                nb@ == name.spec_bytes(),
                0 <= i <= self.entries@.len(),
                forall|a: int|
                    0 <= a < i ==> !entry_matches(
                        #[trigger] self.entries@[a],
                        name.spec_bytes(),
                        allow_internal,
                    ),
            decreases self.entries@.len() - i,
        {
            let e = &self.entries[i];
            if (allow_internal || !e.is_anon_box) && eq_ignore_ascii_case_from(
                nb,
                e.text.as_str().as_bytes(),
                1,
            ) {
                proof {
                    let s = self.entries@;
                    assert(entry_matches(s[i as int], name.spec_bytes(), allow_internal));
                    let k = choose|k: int|
                        0 <= k < s.len() && entry_matches(
                            #[trigger] s[k],
                            name.spec_bytes(),
                            allow_internal,
                        );
                    lemma_match_unique(
                        s,
                        name.spec_bytes(),
                        allow_internal,
                        allow_internal,
                        i as int,
                        k,
                    );
                }
                return Some(PseudoElement { atom: e.atom, is_anon_box: e.is_anon_box });
            }
            i = i + 1;
        }
        None
    }

    /// Looks up a pseudo-element by its identifier.
    pub fn lookup_by_atom(&self, atom: u32) -> (r: Option<PseudoElement>)
        ensures
            r matches Some(p) ==> atom_lookup_spec(self@, atom) == Some(p@),
            r is None ==> atom_lookup_spec(self@, atom) is None,
    {
        proof {
            use_type_invariant(self);
        }
        let mut i: usize = 0;
        while i < self.entries.len()
            invariant
                catalog_wf(self.entries@),
                0 <= i <= self.entries@.len(),
                forall|a: int| 0 <= a < i ==> (#[trigger] self.entries@[a]).atom != atom,
            decreases self.entries@.len() - i,
        {
            let e = &self.entries[i];
            if e.atom == atom {
                proof {
                    let s = self.entries@;
                    assert(s[i as int].atom == atom);
                    let k = choose|k: int| 0 <= k < s.len() && (#[trigger] s[k]).atom == atom;
                    assert(s[k].atom == s[i as int].atom);
                }
                return Some(PseudoElement { atom: e.atom, is_anon_box: e.is_anon_box });
            }
            i = i + 1;
        }
        None
    }
}

impl PseudoElement {
    /// The serialised form: a colon before the catalog text, so `::before`
    /// for `:before`; `None` for an identifier that the catalog lacks.
    pub fn to_css(&self, catalog: &PseudoCatalog) -> (r: Option<String>)
        ensures
            r is Some <==> atom_text_spec(catalog@, self@.0) is Some,
            r matches Some(t) ==> atom_text_spec(catalog@, self@.0) == Some(
                t@.subrange(1, t@.len() as int),
            ) && t@.len() >= 1 && t@[0] == ':',
    {
        proof {
            use_type_invariant(catalog);
        }
        let entries = &catalog.entries;
        let mut i: usize = 0;
        while i < entries.len()
            invariant
                catalog_wf(entries@),
                entries@ == catalog@,
                0 <= i <= entries@.len(),
                forall|a: int| 0 <= a < i ==> (#[trigger] entries@[a]).atom != self.atom,
            decreases entries@.len() - i,
        {
            if entries[i].atom == self.atom {
                let out = String::from_str(":").concat(entries[i].text.as_str());
                proof {
                    let s = entries@;
                    assert(s[i as int].atom == self.atom);
                    let k = choose|k: int| 0 <= k < s.len() && (#[trigger] s[k]).atom == self.atom;
                    assert(s[k].atom == s[i as int].atom);
                    reveal_strlit(":");
                    assert(out@.subrange(1, out@.len() as int) =~= s[i as int].text@);
                }
                return Some(out);
            }
            i = i + 1;
        }
        None
    }

    /// The identifier.
    pub fn as_atom(&self) -> (r: u32)
        ensures
            r == self@.0,
    {
        self.atom
    }

    /// Whether this pseudo-element is an anonymous box.
    pub fn is_anon_box(&self) -> (r: bool)
        ensures
            r == self@.1,
    {
        self.is_anon_box
    }

    /// Builds a pseudo-element whose flag the caller already knows to be the
    /// catalog's; see `from_atom_checked` for the validating form.
    pub fn from_atom_unchecked(atom: u32, is_anon_box: bool) -> (r: PseudoElement)
        ensures
            r@ == (atom, is_anon_box),
    {
        PseudoElement { atom, is_anon_box }
    }

    /// Builds a pseudo-element after holding it against the catalog: an
    /// unknown identifier gives `NoMatch`, a flag that differs from the
    /// catalog's gives `InternalConsistencyViolation`.
    pub fn from_atom_checked(catalog: &PseudoCatalog, atom: u32, is_anon_box: bool) -> (r: Result<
        PseudoElement,
        PseudoError,
    >)
        ensures
            atom_lookup_spec(catalog@, atom) is None ==> r == Err::<PseudoElement, PseudoError>(
                PseudoError::NoMatch,
            ),
            atom_lookup_spec(catalog@, atom) matches Some(v) ==> (if v.1 == is_anon_box {
                r matches Ok(p) && p@ == (atom, is_anon_box)
            } else {
                r == Err::<PseudoElement, PseudoError>(PseudoError::InternalConsistencyViolation)
            }),
    {
        match PseudoElement::from_atom(catalog, atom) {
            Some(p) => {
                if p.is_anon_box == is_anon_box {
                    Ok(p)
                } else {
                    Err(PseudoError::InternalConsistencyViolation)
                }
            },
            None => Err(PseudoError::NoMatch),
        }
    }

    /// The pseudo-element of the catalog with identifier `atom`.
    pub fn from_atom(catalog: &PseudoCatalog, atom: u32) -> (r: Option<PseudoElement>)
        ensures
            r matches Some(p) ==> atom_lookup_spec(catalog@, atom) == Some(p@),
            r is None ==> atom_lookup_spec(catalog@, atom) is None,
    {
        catalog.lookup_by_atom(atom)
    }

    /// The pseudo-element of the catalog that `s` (without its colon) names,
    /// ignoring ASCII case; anonymous boxes are found only in user-agent
    /// stylesheets.
    pub fn from_slice(catalog: &PseudoCatalog, s: &str, in_ua_stylesheet: bool) -> (r: Option<
        PseudoElement,
    >)
        ensures
            r matches Some(p) ==> lookup_spec(catalog@, s.spec_bytes(), in_ua_stylesheet) == Some(
                p@,
            ),
            r is None ==> lookup_spec(catalog@, s.spec_bytes(), in_ua_stylesheet) is None,
    {
        catalog.lookup_by_text(s, in_ua_stylesheet)
    }
}

} // verus!
