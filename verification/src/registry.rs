//! The offer registry: which (format, payload) pairs this process currently
//! offers for each selection, together with the spec-level lookup functions
//! the serving contracts are stated over, and the store-side ownership check.
use vstd::prelude::*;
use std::collections::HashMap;
use crate::{Atom, Error};

verus! {

broadcast use vstd::std_specs::hash::group_hash_axioms;

/// One (format, payload) pair of an offer.
pub struct OfferEntry {
    pub target: Atom,
    pub value: Vec<u8>,
}

/// The payload the registry serves for `target` under selection key `sel`:
/// the value of the first entry whose format matches, if any.
pub open spec fn first_match_from(s: Seq<OfferEntry>, target: Atom, i: int) -> Option<Seq<u8>>
    decreases s.len() - i,
{
    if i < 0 || i >= s.len() {
        None
    } else if s[i].target == target {
        Some(s[i].value@)
    } else {
        first_match_from(s, target, i + 1)
    }
}

/// Lookup of the payload offered for `target` under `sel`, or `None` when no
/// offer is installed for `sel` or none of its entries carries that format.
pub open spec fn offer_lookup(m: Map<Atom, Vec<OfferEntry>>, sel: Atom, target: Atom) -> Option<
    Seq<u8>,
> {
    if m.contains_key(sel) {
        first_match_from(m[sel]@, target, 0)
    } else {
        None
    }
}

/// The format ids of an offer, in offer order.
pub open spec fn offered_formats(s: Seq<OfferEntry>) -> Seq<Atom> {
    s.map_values(|e: OfferEntry| e.target)
}

/// The id array served for a format-enumeration request: the enumeration
/// marker itself followed by every offered format id, or the empty array when
/// nothing is offered for `sel`.
pub open spec fn targets_reply(m: Map<Atom, Vec<OfferEntry>>, sel: Atom, targets_atom: Atom) -> Seq<
    Atom,
> {
    if m.contains_key(sel) && m[sel]@.len() > 0 {
        seq![targets_atom] + offered_formats(m[sel]@)
    } else {
        Seq::<Atom>::empty()
    }
}

/// Mapping from selection id to the offer currently installed for it. A store
/// wholesale-replaces the entry; a clear or an observed ownership loss removes
/// it; entries are never mutated in place.
pub struct Registry {
    map: HashMap<Atom, Vec<OfferEntry>>,
}

impl View for Registry {
    type V = Map<Atom, Vec<OfferEntry>>;

    closed spec fn view(&self) -> Map<Atom, Vec<OfferEntry>> {
        self.map@
    }
}

impl Registry {
    /// An empty registry: no selection offers anything.
    pub fn new() -> (r: Registry)
        ensures
            r@ == Map::<Atom, Vec<OfferEntry>>::empty(),
    {
        Registry { map: HashMap::new() }
    }

    /// Installs `offers` for `sel`, wholesale-replacing any prior entry.
    pub fn set_offer(&mut self, sel: Atom, offers: Vec<OfferEntry>)
        ensures
            final(self)@ == old(self)@.insert(sel, offers),
    {
        self.map.insert(sel, offers);
    }

    /// Removes the entry for `sel`, if any.
    pub fn remove_offer(&mut self, sel: Atom)
        ensures
            final(self)@ == old(self)@.remove(sel),
    {
        self.map.remove(&sel);
    }

    /// The offer installed for `sel`, if any.
    pub fn get_offer(&self, sel: Atom) -> (r: Option<&Vec<OfferEntry>>)
        ensures
            match r {
                Some(offers) => self@.contains_key(sel) && *offers == self@[sel],
                None => !self@.contains_key(sel),
            },
    {
        self.map.get(&sel)
    }

    /// The payload served for `target` under `sel`: the first matching entry.
    pub fn find_value(&self, sel: Atom, target: Atom) -> (r: Option<&Vec<u8>>)
        ensures
            match r {
                Some(v) => offer_lookup(self@, sel, target) == Some(v@),
                None => offer_lookup(self@, sel, target) is None,
            },
    {
        match self.map.get(&sel) {
            None => None,
            Some(offers) => {
                let n = offers.len();
                for i in 0..n
                    invariant
                        n == offers.len(),
                        offer_lookup(self@, sel, target) == first_match_from(
                            offers@,
                            target,
                            i as int,
                        ),
                {
                    if offers[i].target == target {
                        return Some(&offers[i].value);
                    }
                }
                None
            },
        }
    }

    /// The id array answering a format-enumeration request for `sel`.
    pub fn targets_list(&self, sel: Atom, targets_atom: Atom) -> (r: Vec<Atom>)
        ensures
            r@ == targets_reply(self@, sel, targets_atom),
    {
        let mut out: Vec<Atom> = Vec::new();
        match self.map.get(&sel) {
            None => out,
            Some(offers) => {
                if offers.len() == 0 {
                    return out;
                }
                out.push(targets_atom);
                let n = offers.len();
                for i in 0..n
                    invariant
                        n == offers.len(),
                        self@.contains_key(sel) && self@[sel] == *offers,
                        out@.len() == i + 1,
                        out@[0] == targets_atom,
                        forall|j: int| 0 <= j < i ==> out@[j + 1] == offers@[j].target,
                {
                    out.push(offers[i].target);
                }
                proof {
                    assert(out@ =~= targets_reply(self@, sel, targets_atom));
                }
                out
            },
        }
    }
}

/// A single-format offer, as `store` installs it.
pub fn single_offer(target: Atom, value: Vec<u8>) -> (r: Vec<OfferEntry>)
    ensures
        r@ == seq![OfferEntry { target, value }],
{
    let mut r: Vec<OfferEntry> = Vec::new();
    r.push(OfferEntry { target, value });
    r
}

/// The offer `store_multiple` installs: one entry per (format, payload) pair,
/// in the order given.
pub fn offers_from_pairs(pairs: Vec<(Atom, Vec<u8>)>) -> (r: Vec<OfferEntry>)
    ensures
        r@.len() == pairs@.len(),
        forall|i: int|
            0 <= i < pairs@.len() ==> r@[i].target == pairs@[i].0 && r@[i].value == pairs@[i].1,
{
    let ghost orig = pairs@;
    let mut pairs = pairs;
    let mut r: Vec<OfferEntry> = Vec::new();
    while pairs.len() > 0
        invariant
            r@.len() + pairs@.len() == orig.len(),
            pairs@ == orig.skip(r@.len() as int),
            forall|j: int|
                0 <= j < r@.len() ==> r@[j].target == orig[j].0 && r@[j].value == orig[j].1,
        decreases pairs@.len(),
    {
        let ghost k = r@.len() as int;
        let (t, v) = pairs.remove(0);
        proof {
            assert(t == orig.skip(k)[0].0 && v == orig.skip(k)[0].1);
            assert(orig.skip(k)[0] == orig[k]);
            assert(pairs@ =~= orig.skip(k + 1));
        }
        r.push(OfferEntry { target: t, value: v });
    }
    r
}

/// Round trip: after a store installs a single-format offer, a load for that
/// format is served exactly the stored payload, and a requestor that starts
/// with an empty buffer accumulates exactly that payload. Serving only reads
/// the registry, so a repeated load is served the same payload again.
pub proof fn lemma_store_load_round_trip(
    m: Map<Atom, Vec<OfferEntry>>,
    sel: Atom,
    offers: Vec<OfferEntry>,
    e: OfferEntry,
    buff: Seq<u8>,
)
    requires
        offers@ == seq![e],
        buff.len() == 0,
    ensures
        offer_lookup(m.insert(sel, offers), sel, e.target) == Some(e.value@),
        buff + e.value@ == e.value@,
{
    let m2 = m.insert(sel, offers);
    assert(m2[sel]@ == seq![e]);
    assert(first_match_from(seq![e], e.target, 0) == Some(e.value@));
    assert(buff + e.value@ =~= e.value@);
}

/// After a store installs a non-empty offer, format enumeration lists the
/// enumeration marker followed by every stored format, in store order.
pub proof fn lemma_store_lists_targets(
    m: Map<Atom, Vec<OfferEntry>>,
    sel: Atom,
    offers: Vec<OfferEntry>,
    targets_atom: Atom,
)
    requires
        offers@.len() > 0,
    ensures
        targets_reply(m.insert(sel, offers), sel, targets_atom) == seq![targets_atom]
            + offered_formats(offers@),
{
}

/// After a selection's offer is removed, format enumeration for it is
/// answered with the empty list.
pub proof fn lemma_clear_empties_targets(
    m: Map<Atom, Vec<OfferEntry>>,
    sel: Atom,
    targets_atom: Atom,
)
    ensures
        targets_reply(m.remove(sel), sel, targets_atom) == Seq::<Atom>::empty(),
{
}

/// Confirms an ownership claim: after asserting ownership, the transport is
/// asked who owns the selection; the claim stands only if that is our own
/// serving window. A store that loses the race to a competing claimant fails
/// with [`Error::Owner`].
pub fn verify_ownership(owner: Option<u32>, window: u32) -> (r: Result<(), Error>)
    ensures
        r == if owner == Some(window) {
            Ok::<(), Error>(())
        } else {
            Err::<(), Error>(Error::Owner)
        },
{
    match owner {
        Some(w) if w == window => Ok(()),
        _ => Err(Error::Owner),
    }
}

} // verus!
