//! The cache of replacements.
//!
//! The replacement of a literal is its inversion, or the literal itself where
//! it cannot be inverted. It depends on the literal alone, so it is worked out
//! once and remembered: an entry is written when a literal is first met and is
//! never changed or removed afterwards.

use crate::colors::{color_value, invert_color, inverted_literal};
use vstd::hash_map::StringHashMap;
use vstd::prelude::*;

verus! {

/// The literal that stands in the output where `literal` stood in the input:
/// the inversion of `literal`, or `literal` itself where it has none.
pub open spec fn replacement(literal: Seq<char>) -> Seq<char> {
    match inverted_literal(literal) {
        Some(inverse) => inverse,
        None => literal,
    }
}

/// Whether every entry holds the replacement of its key.
pub open spec fn memoizes(entries: Map<Seq<char>, Seq<char>>) -> bool {
    forall|literal: Seq<char>| #[trigger]
        entries.contains_key(literal) ==> entries[literal] == replacement(literal)
}

/// What a lookup of `literal` answers on a cache that holds `entries`.
pub open spec fn looked_up(entries: Map<Seq<char>, Seq<char>>, literal: Seq<char>) -> Seq<char> {
    if entries.contains_key(literal) {
        entries[literal]
    } else {
        replacement(literal)
    }
}

/// What a cache that held `entries` holds after a lookup of `literal`: the
/// same on a hit, one entry more on a miss.
pub open spec fn after_lookup(entries: Map<Seq<char>, Seq<char>>, literal: Seq<char>) -> Map<
    Seq<char>,
    Seq<char>,
> {
    if entries.contains_key(literal) {
        entries
    } else {
        entries.insert(literal, replacement(literal))
    }
}

/// What a cache that held `entries` holds after the lookups of `literals`,
/// made in order.
pub open spec fn after_lookups(
    entries: Map<Seq<char>, Seq<char>>,
    literals: Seq<Seq<char>>,
) -> Map<Seq<char>, Seq<char>>
    decreases literals.len(),
{
    if literals.len() == 0 {
        entries
    } else {
        after_lookup(after_lookups(entries, literals.drop_last()), literals.last())
    }
}

/// A literal that denotes no color value is its own replacement, so a lookup
/// hands it back unchanged.
pub proof fn lemma_unparseable_is_kept(entries: Map<Seq<char>, Seq<char>>, literal: Seq<char>)
    requires
        memoizes(entries),
        color_value(literal) is None,
    ensures
        replacement(literal) == literal,
        looked_up(entries, literal) == literal,
{
}

/// An entry, once written, is never changed or removed by a lookup.
pub proof fn lemma_entries_stay(
    entries: Map<Seq<char>, Seq<char>>,
    literals: Seq<Seq<char>>,
    literal: Seq<char>,
)
    requires
        entries.contains_key(literal),
    ensures
        after_lookups(entries, literals).contains_key(literal),
        after_lookups(entries, literals)[literal] == entries[literal],
    decreases literals.len(),
{
    if literals.len() > 0 {
        lemma_entries_stay(entries, literals.drop_last(), literal);
    }
}

/// Lookups of one literal agree: whatever is looked up in between, a later
/// lookup answers what the first one answered. The later lookup is a hit,
/// which leaves the cache as it is, so the replacement of a literal is worked
/// out at most once.
pub proof fn lemma_repeated_lookups_agree(
    entries: Map<Seq<char>, Seq<char>>,
    between: Seq<Seq<char>>,
    literal: Seq<char>,
)
    ensures
        ({
            let later = after_lookups(after_lookup(entries, literal), between);
            &&& later.contains_key(literal)
            &&& looked_up(later, literal) == looked_up(entries, literal)
            &&& after_lookup(later, literal) == later
        }),
{
    lemma_entries_stay(after_lookup(entries, literal), between, literal);
}

/// Lookups keep a cache memoizing.
pub proof fn lemma_lookups_memoize(entries: Map<Seq<char>, Seq<char>>, literals: Seq<Seq<char>>)
    requires
        memoizes(entries),
    ensures
        memoizes(after_lookups(entries, literals)),
    decreases literals.len(),
{
    if literals.len() > 0 {
        lemma_lookups_memoize(entries, literals.drop_last());
    }
}

/// A map from color literals to their replacements, filled as literals are
/// met.
pub struct ColorCache {
    entries: StringHashMap<String>,
}

impl View for ColorCache {
    type V = Map<Seq<char>, Seq<char>>;

    closed spec fn view(&self) -> Map<Seq<char>, Seq<char>> {
        self.entries@.map_values(|inverse: String| inverse@)
    }
}

impl ColorCache {
    #[verifier::type_invariant]
    spec fn well_formed(&self) -> bool {
        memoizes(self@)
    }

    /// An empty cache.
    pub fn new() -> (cache: ColorCache)
        ensures
            cache@ == Map::<Seq<char>, Seq<char>>::empty(),
    {
        let entries: StringHashMap<String> = StringHashMap::new();
        assert(entries@.map_values(|inverse: String| inverse@) =~= Map::<
            Seq<char>,
            Seq<char>,
        >::empty());
        ColorCache { entries }
    }

    /// The number of literals that the cache holds.
    pub fn len(&self) -> (count: usize)
        ensures
            count == self@.len(),
            memoizes(self@),
    {
        proof {
            use_type_invariant(self);
            broadcast use vstd::hash_map::group_hash_map_axioms;

            assert(self@.dom() =~= self.entries@.dom());
        }
        self.entries.len()
    }

    /// The remembered replacement of `literal`, if the cache holds one.
    pub fn lookup(&self, literal: &str) -> (hit: Option<String>)
        ensures
            memoizes(self@),
            match hit {
                Some(shown) => self@.contains_key(literal@) && shown@ == self@[literal@],
                None => !self@.contains_key(literal@),
            },
    {
        proof {
            use_type_invariant(self);
        }
        match self.entries.get(literal) {
            Some(shown) => Some(shown.clone()),
            None => None,
        }
    }

    /// Remembers the replacement of `literal`.
    pub(crate) fn store(&mut self, literal: &str, shown: String)
        requires
            shown@ == replacement(literal@),
        ensures
            final(self)@ == old(self)@.insert(literal@, shown@),
            memoizes(final(self)@),
    {
        proof {
            use_type_invariant(&*self);
        }
        let ghost before = self@;
        // The entries leave the cache while they change, so that the cache
        // is well formed at every step.
        let mut entries: StringHashMap<String> = StringHashMap::new();
        assert(entries@.map_values(|inverse: String| inverse@) =~= Map::<
            Seq<char>,
            Seq<char>,
        >::empty());
        core::mem::swap(&mut self.entries, &mut entries);
        entries.insert(literal.to_owned(), shown);
        assert(entries@.map_values(|inverse: String| inverse@) =~= before.insert(
            literal@,
            shown@,
        ));
        self.entries = entries;
    }

    /// The replacement of `literal`: from the cache where it is there, else
    /// worked out by inversion and remembered. A literal that cannot be
    /// inverted is remembered as its own replacement.
    pub fn lookup_or_compute(&mut self, literal: &str) -> (shown: String)
        ensures
            shown@ == replacement(literal@),
            shown@ == looked_up(old(self)@, literal@),
            final(self)@ == after_lookup(old(self)@, literal@),
            color_value(literal@) is None ==> shown@ == literal@,
            memoizes(final(self)@),
    {
        match self.lookup(literal) {
            Some(shown) => shown,
            None => {
                let shown = compute_replacement(literal);
                self.store(literal, shown.clone());
                shown
            },
        }
    }
}

/// Works out the replacement of `literal` without a cache: its inversion, or
/// the literal itself where the inversion is refused.
pub fn compute_replacement(literal: &str) -> (shown: String)
    ensures
        shown@ == replacement(literal@),
{
    match invert_color(literal) {
        Ok(inverse) => inverse,
        Err(_) => literal.to_owned(),
    }
}

} // verus!
