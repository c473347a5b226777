//! The kitties ledger and its three calls: create, breed and transfer.
use crate::dna::{combine, combine_seq, gender_of, Kitty};
use crate::random::{random_dna, random_value};
use vstd::hash_map::HashMapWithView;
use vstd::prelude::*;

verus! {

broadcast use vstd::std_specs::hash::group_hash_axioms;

/// Why a call was rejected.
#[derive(Clone, Copy, Debug, PartialEq, Eq, Structural)]
pub enum Error {
    /// The next kitty id cannot be advanced any further.
    KittiesIdOverflow,
    /// The caller owns no kitty with the given id.
    InvalidKittyId,
    /// The two parents have the same gender.
    SameGender,
}

/// What a successful call reports.
#[derive(Clone, Copy, Debug, PartialEq, Eq)]
pub enum Event {
    /// A kitty is created: owner, kitty id, kitty.
    KittyCreated(u64, u32, Kitty),
    /// A new kitten is bred: owner, kitty id, kitty.
    KittyBred(u64, u32, Kitty),
    /// A kitty is transferred: from, to, kitty id.
    KittyTransferred(u64, u64, u32),
}

/// The id a successful call took from the counter, if any.
pub open spec fn allocated_id(r: Result<Event, Error>) -> Option<u32> {
    match r {
        Result::Ok(Event::KittyCreated(_, id, _)) => Some(id),
        Result::Ok(Event::KittyBred(_, id, _)) => Some(id),
        _ => None,
    }
}

/// How one call moves the id counter from `pre` to `post`: a call that takes
/// an id takes the counter's value and advances it by one; any other call
/// leaves the counter alone.
pub open spec fn allocation_step(pre: int, post: int, taken: Option<u32>) -> bool {
    match taken {
        Option::Some(id) => id == pre && post == pre + 1,
        Option::None => post == pre,
    }
}

/// `r` reports a kitty with DNA `dna` that `post` stores for `sender` under
/// the id that `pre`'s counter held, all else as in `pre`.
pub open spec fn minted(
    pre: &Module,
    post: &Module,
    r: Result<Event, Error>,
    sender: u64,
    dna: Seq<u8>,
) -> bool {
    match r {
        Result::Ok(Event::KittyCreated(owner, id, kitty)) | Result::Ok(
            Event::KittyBred(owner, id, kitty),
        ) => owner == sender && id == pre.next_id() && kitty.dna() == dna && post.records()
            == pre.records().insert(id, (sender, kitty)),
        _ => false,
    }
}

/// Number of calls in `taken` that took an id.
pub open spec fn count_taken(taken: Seq<Option<u32>>) -> nat
    decreases taken.len(),
{
    if taken.len() == 0 {
        0
    } else {
        count_taken(taken.drop_last()) + if taken.last() is Some {
            1nat
        } else {
            0nat
        }
    }
}

/// The kitties of every owner and the next id to hand out.
///
/// The table is keyed by kitty id and holds each kitty with its owner, so a
/// kitty id belongs to at most one owner at any time.
pub struct Module {
    kitties: HashMapWithView<u32, (u64, Kitty)>,
    next_kitty_id: u32,
}

impl Module {
    /// Each stored kitty id with its owner and kitty.
    pub closed spec fn records(&self) -> Map<u32, (u64, Kitty)> {
        self.kitties@
    }

    /// The id the next created or bred kitty receives.
    pub closed spec fn next_id(&self) -> u32 {
        self.next_kitty_id
    }

    /// The kitty that `owner` holds under `id`, if any.
    pub open spec fn owned(&self, owner: u64, id: u32) -> Option<Kitty> {
        if self.records().contains_key(id) && self.records()[id].0 == owner {
            Some(self.records()[id].1)
        } else {
            None
        }
    }

    /// Every stored id was handed out by the counter.
    pub open spec fn wf(&self) -> bool {
        forall|id: u32| #[trigger] self.records().contains_key(id) ==> id < self.next_id()
    }

    /// Neither the kitties nor the counter differ between `self` and `other`.
    pub open spec fn same_state(&self, other: &Module) -> bool {
        self.records() == other.records() && self.next_id() == other.next_id()
    }

    /// An empty ledger whose first kitty will get id 0.
    pub fn new() -> (r: Module)
        ensures
            r.wf(),
            r.records() == Map::<u32, (u64, Kitty)>::empty(),
            r.next_id() == 0,
    {
        Module { kitties: HashMapWithView::new(), next_kitty_id: 0 }
    }

    /// The kitty that `owner` holds under `kitty_id`.
    pub fn kitties(&self, owner: u64, kitty_id: u32) -> (r: Option<Kitty>)
        ensures
            r == self.owned(owner, kitty_id),
    {
        match self.kitties.get(&kitty_id) {
            Some(rec) => {
                if rec.0 == owner {
                    Some(rec.1)
                } else {
                    None
                }
            },
            None => None,
        }
    }

    /// The id the next created or bred kitty receives.
    pub fn next_kitty_id(&self) -> (r: u32)
        ensures
            r == self.next_id(),
    {
        self.next_kitty_id
    }

    /// Stores `kitty` under `kitty_id` for `owner`.
    fn put(&mut self, owner: u64, kitty_id: u32, kitty: Kitty)
        ensures
            final(self).records() == old(self).records().insert(kitty_id, (owner, kitty)),
            final(self).next_id() == old(self).next_id(),
    {
        self.kitties.insert(kitty_id, (owner, kitty));
    }

    /// Removes and returns the kitty that `owner` holds under `kitty_id`.
    fn take(&mut self, owner: u64, kitty_id: u32) -> (r: Option<Kitty>)
        ensures
            r == old(self).owned(owner, kitty_id),
            r is Some ==> final(self).records() == old(self).records().remove(kitty_id),
            r is None ==> final(self).records() == old(self).records(),
            final(self).next_id() == old(self).next_id(),
    {
        let owns = match self.kitties.get(&kitty_id) {
            Some(rec) => rec.0 == owner,
            None => false,
        };
        if owns {
            match self.kitties.remove(&kitty_id) {
                Some(rec) => Some(rec.1),
                None => None,
            }
        } else {
            None
        }
    }

    /// Hands out the next kitty id and advances the counter, unless the
    /// counter is at its largest value.
    fn get_next_kitty_id(&mut self) -> (r: Result<u32, Error>)
        ensures
            final(self).records() == old(self).records(),
            old(self).next_id() == u32::MAX ==> r == Err::<u32, Error>(Error::KittiesIdOverflow)
                && final(self).next_id() == old(self).next_id(),
            old(self).next_id() < u32::MAX ==> r == Ok::<u32, Error>(old(self).next_id())
                && final(self).next_id() == old(self).next_id() + 1,
    {
        let current_id = self.next_kitty_id;
        match current_id.checked_add(1) {
            Some(n) => {
                self.next_kitty_id = n;
                Ok(current_id)
            },
            None => Err(Error::KittiesIdOverflow),
        }
    }

    /// Creates a kitty with the given DNA for `sender`.
    pub fn create_with_dna(&mut self, sender: u64, dna: [u8; 16]) -> (r: Result<Event, Error>)
        requires
            old(self).wf(),
        ensures
            final(self).wf(),
            allocation_step(old(self).next_id() as int, final(self).next_id() as int, allocated_id(r)),
            old(self).next_id() == u32::MAX ==> r == Err::<Event, Error>(Error::KittiesIdOverflow)
                && final(self).same_state(old(self)),
            old(self).next_id() < u32::MAX ==> r == Ok::<Event, Error>(
                Event::KittyCreated(sender, old(self).next_id(), Kitty(dna)),
            ) && minted(old(self), final(self), r, sender, dna@),
    {
        let kitty_id = match self.get_next_kitty_id() {
            Ok(id) => id,
            Err(e) => {
                return Err(e);
            },
        };
        let kitty = Kitty(dna);
        self.put(sender, kitty_id, kitty);
        Ok(Event::KittyCreated(sender, kitty_id, kitty))
    }

    /// Creates a kitty for `sender` whose DNA is drawn from the block's
    /// random seed, the sender and the index of the call in its block.
    pub fn create(
        &mut self,
        sender: u64,
        seed: &[u8; 32],
        extrinsic_index: Option<u32>,
    ) -> (r: Result<Event, Error>)
        requires
            old(self).wf(),
        ensures
            final(self).wf(),
            allocation_step(old(self).next_id() as int, final(self).next_id() as int, allocated_id(r)),
            old(self).next_id() == u32::MAX ==> r == Err::<Event, Error>(Error::KittiesIdOverflow)
                && final(self).same_state(old(self)),
            old(self).next_id() < u32::MAX ==> r is Ok && r->Ok_0 is KittyCreated && minted(
                old(self),
                final(self),
                r,
                sender,
                random_dna(seed@, sender, extrinsic_index),
            ),
    {
        let dna = random_value(seed, sender, extrinsic_index);
        self.create_with_dna(sender, dna)
    }

    /// Breeds two kitties of `sender` into a new one whose DNA mixes the
    /// parents' under `selector`.
    pub fn breed_with_selector(
        &mut self,
        sender: u64,
        kitty_id_1: u32,
        kitty_id_2: u32,
        selector: [u8; 16],
    ) -> (r: Result<Event, Error>)
        requires
            old(self).wf(),
        ensures
            final(self).wf(),
            allocation_step(old(self).next_id() as int, final(self).next_id() as int, allocated_id(r)),
            r is Err ==> final(self).same_state(old(self)),
            (old(self).owned(sender, kitty_id_1) is None || old(self).owned(sender, kitty_id_2) is None)
                <==> r == Err::<Event, Error>(Error::InvalidKittyId),
            old(self).owned(sender, kitty_id_1) is Some && old(self).owned(sender, kitty_id_2) is Some
                ==> {
                let dna1 = old(self).owned(sender, kitty_id_1)->Some_0.dna();
                let dna2 = old(self).owned(sender, kitty_id_2)->Some_0.dna();
                &&& gender_of(dna1) == gender_of(dna2) <==> r == Err::<Event, Error>(Error::SameGender)
                &&& gender_of(dna1) != gender_of(dna2) && old(self).next_id() == u32::MAX ==> r
                    == Err::<Event, Error>(Error::KittiesIdOverflow)
                &&& gender_of(dna1) != gender_of(dna2) && old(self).next_id() < u32::MAX ==> r is Ok
                    && r->Ok_0 is KittyBred && minted(
                    old(self),
                    final(self),
                    r,
                    sender,
                    combine_seq(dna1, dna2, selector@),
                )
            },
    {
        let kitty1 = match self.kitties(sender, kitty_id_1) {
            Some(k) => k,
            None => {
                return Err(Error::InvalidKittyId);
            },
        };
        let kitty2 = match self.kitties(sender, kitty_id_2) {
            Some(k) => k,
            None => {
                return Err(Error::InvalidKittyId);
            },
        };
        if kitty1.gender() == kitty2.gender() {
            return Err(Error::SameGender);
        }
        let kitty_id = match self.get_next_kitty_id() {
            Ok(id) => id,
            Err(e) => {
                return Err(e);
            },
        };
        let new_kitty = Kitty(combine(&kitty1.0, &kitty2.0, &selector));
        self.put(sender, kitty_id, new_kitty);
        Ok(Event::KittyBred(sender, kitty_id, new_kitty))
    }

    /// Breeds two kitties of `sender`; the selector that mixes their DNA is
    /// drawn from the block's random seed, the sender and the index of the
    /// call in its block.
    pub fn breed(
        &mut self,
        sender: u64,
        kitty_id_1: u32,
        kitty_id_2: u32,
        seed: &[u8; 32],
        extrinsic_index: Option<u32>,
    ) -> (r: Result<Event, Error>)
        requires
            old(self).wf(),
        ensures
            final(self).wf(),
            allocation_step(old(self).next_id() as int, final(self).next_id() as int, allocated_id(r)),
            r is Err ==> final(self).same_state(old(self)),
            (old(self).owned(sender, kitty_id_1) is None || old(self).owned(sender, kitty_id_2) is None)
                <==> r == Err::<Event, Error>(Error::InvalidKittyId),
            old(self).owned(sender, kitty_id_1) is Some && old(self).owned(sender, kitty_id_2) is Some
                ==> {
                let dna1 = old(self).owned(sender, kitty_id_1)->Some_0.dna();
                let dna2 = old(self).owned(sender, kitty_id_2)->Some_0.dna();
                &&& gender_of(dna1) == gender_of(dna2) <==> r == Err::<Event, Error>(Error::SameGender)
                &&& gender_of(dna1) != gender_of(dna2) && old(self).next_id() == u32::MAX ==> r
                    == Err::<Event, Error>(Error::KittiesIdOverflow)
                &&& gender_of(dna1) != gender_of(dna2) && old(self).next_id() < u32::MAX ==> r is Ok
                    && r->Ok_0 is KittyBred && minted(
                    old(self),
                    final(self),
                    r,
                    sender,
                    combine_seq(dna1, dna2, random_dna(seed@, sender, extrinsic_index)),
                )
            },
    {
        let selector = random_value(seed, sender, extrinsic_index);
        self.breed_with_selector(sender, kitty_id_1, kitty_id_2, selector)
    }

    /// Moves kitty `kitty_id` from `sender` to `to`. A transfer to oneself
    /// only checks that the sender owns the kitty.
    pub fn transfer(&mut self, sender: u64, to: u64, kitty_id: u32) -> (r: Result<
        Option<Event>,
        Error,
    >)
        requires
            old(self).wf(),
        ensures
            final(self).wf(),
            final(self).next_id() == old(self).next_id(),
            old(self).owned(sender, kitty_id) is None <==> r == Err::<Option<Event>, Error>(
                Error::InvalidKittyId,
            ),
            old(self).owned(sender, kitty_id) is None || sender == to ==> final(self).same_state(
                old(self),
            ),
            old(self).owned(sender, kitty_id) is Some && sender == to ==> r == Ok::<
                Option<Event>,
                Error,
            >(None),
            old(self).owned(sender, kitty_id) is Some && sender != to ==> {
                &&& r == Ok::<Option<Event>, Error>(Some(Event::KittyTransferred(sender, to, kitty_id)))
                &&& final(self).records() == old(self).records().insert(
                    kitty_id,
                    (to, old(self).owned(sender, kitty_id)->Some_0),
                )
                &&& final(self).owned(sender, kitty_id) is None
                &&& final(self).owned(to, kitty_id) == old(self).owned(sender, kitty_id)
            },
    {
        if sender == to {
            return match self.kitties(sender, kitty_id) {
                Some(_) => Ok(None),
                None => Err(Error::InvalidKittyId),
            };
        }
        let kitty = match self.take(sender, kitty_id) {
            Some(k) => k,
            None => {
                return Err(Error::InvalidKittyId);
            },
        };
        self.put(to, kitty_id, kitty);
        assert(self.records() =~= old(self).records().insert(kitty_id, (to, kitty)));
        Ok(Some(Event::KittyTransferred(sender, to, kitty_id)))
    }
}

/// Along a run of calls, the id counter never goes down.
proof fn lemma_counter_monotone(counters: Seq<int>, taken: Seq<Option<u32>>, i: int, j: int)
    requires
        counters.len() == taken.len() + 1,
        forall|k: int|
            0 <= k < taken.len() ==> allocation_step(counters[k], counters[k + 1], #[trigger] taken[k]),
        0 <= i <= j < counters.len(),
    ensures
        counters[i] <= counters[j],
    decreases j - i,
{
    if i < j {
        lemma_counter_monotone(counters, taken, i, j - 1);
        assert(allocation_step(counters[j - 1], counters[j], taken[j - 1]));
    }
}

/// Over any run of calls, where `counters[k]` is the id counter before call
/// `k` and `taken[k]` the id that call took, if any: no two calls take the
/// same id, and the counter ends at its first value plus the number of calls
/// that took an id.
pub proof fn lemma_allocation_trace(counters: Seq<int>, taken: Seq<Option<u32>>)
    requires
        counters.len() == taken.len() + 1,
        forall|k: int|
            0 <= k < taken.len() ==> allocation_step(counters[k], counters[k + 1], #[trigger] taken[k]),
    ensures
        forall|i: int, j: int|
            0 <= i < j < taken.len() && #[trigger] taken[i] is Some && #[trigger] taken[j] is Some
                ==> taken[i]->Some_0 != taken[j]->Some_0,
        counters.last() == counters[0] + count_taken(taken),
    decreases taken.len(),
{
    assert forall|i: int, j: int|
        0 <= i < j < taken.len() && #[trigger] taken[i] is Some && #[trigger] taken[j]
            is Some implies taken[i]->Some_0 != taken[j]->Some_0 by {
        assert(allocation_step(counters[i], counters[i + 1], taken[i]));
        assert(allocation_step(counters[j], counters[j + 1], taken[j]));
        lemma_counter_monotone(counters, taken, i + 1, j);
    }
    if taken.len() > 0 {
        let n = taken.len() - 1;
        let shorter = counters.drop_last();
        assert forall|k: int| 0 <= k < taken.drop_last().len() implies allocation_step(
            shorter[k],
            shorter[k + 1],
            #[trigger] taken.drop_last()[k],
        ) by {
            assert(allocation_step(counters[k], counters[k + 1], taken[k]));
        }
        lemma_allocation_trace(shorter, taken.drop_last());
        assert(allocation_step(counters[n], counters[n + 1], taken[n]));
    }
}

/// No kitty id can be found under two different owners at once.
pub proof fn lemma_single_owner(m: Module, a: u64, b: u64, kitty_id: u32)
    requires
        a != b,
    ensures
        !(m.owned(a, kitty_id) is Some && m.owned(b, kitty_id) is Some),
{
}

} // verus!
