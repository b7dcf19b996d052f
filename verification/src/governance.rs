//! Governance: proposals, votes, quorum-gated queueing behind a timelock,
//! execution and vote delegation.
use vstd::prelude::*;
use crate::keyed::{Keyed, keys_unique, map_of, find_key, upsert, lemma_lookup_at};
use crate::math::{BPS, tdiv, div_trunc};

verus! {

/// A governance proposal.
pub struct Proposal {
    pub id: u64,
    pub proposer: String,
    pub title: String,
    pub created: u64,
    pub voting_ends: u64,
    /// When the timelock ends (0: not queued)
    pub queued_until: u64,
    pub for_votes: i128,
    pub against_votes: i128,
    pub executed: bool,
}

impl Proposal {
    pub fn clone_proposal(&self) -> (r: Self)
        ensures
            r == *self,
    {
        Proposal {
            id: self.id,
            proposer: self.proposer.clone(),
            title: self.title.clone(),
            created: self.created,
            voting_ends: self.voting_ends,
            queued_until: self.queued_until,
            for_votes: self.for_votes,
            against_votes: self.against_votes,
            executed: self.executed,
        }
    }
}

impl Keyed for Proposal {
    type Key = u64;

    type KeyView = u64;

    open spec fn key_view(&self) -> u64 {
        self.id
    }

    open spec fn view_of_key(k: &u64) -> u64 {
        *k
    }

    fn has_key_of(&self, k: &u64) -> (b: bool) {
        self.id == *k
    }

    fn key_copy(&self) -> (k: u64) {
        self.id
    }
}

/// A recorded vote.
pub struct VoteReceipt {
    pub voter: String,
    pub support: bool,
    pub weight: i128,
}

/// A vote on a proposal, stored under the proposal and the voter.
pub struct ReceiptEntry {
    pub id: u64,
    pub receipt: VoteReceipt,
}

/// The key of a receipt: the proposal's id and the voter.
pub struct ReceiptKey {
    pub id: u64,
    pub voter: String,
}

impl Keyed for ReceiptEntry {
    type Key = ReceiptKey;

    type KeyView = (u64, Seq<char>);

    open spec fn key_view(&self) -> (u64, Seq<char>) {
        (self.id, self.receipt.voter@)
    }

    open spec fn view_of_key(k: &ReceiptKey) -> (u64, Seq<char>) {
        (k.id, k.voter@)
    }

    fn has_key_of(&self, k: &ReceiptKey) -> (b: bool) {
        self.id == k.id && self.receipt.voter.eq(&k.voter)
    }

    fn key_copy(&self) -> (k: ReceiptKey) {
        ReceiptKey { id: self.id, voter: self.receipt.voter.clone() }
    }
}

/// A delegation of votes from one account to another.
pub struct Delegation {
    pub from: String,
    pub to: String,
}

impl Keyed for Delegation {
    type Key = String;

    type KeyView = Seq<char>;

    open spec fn key_view(&self) -> Seq<char> {
        self.from@
    }

    open spec fn view_of_key(k: &String) -> Seq<char> {
        k@
    }

    fn has_key_of(&self, k: &String) -> (b: bool) {
        self.from.eq(k)
    }

    fn key_copy(&self) -> (k: String) {
        self.from.clone()
    }
}

/// Governance storage.
pub struct GovState {
    pub proposals: Vec<Proposal>,
    pub receipts: Vec<ReceiptEntry>,
    /// The last proposal id handed out
    pub counter: u64,
    /// Share of `for` votes needed to queue, in bps (1000)
    pub quorum_bps: i128,
    /// Seconds between queueing and execution (60)
    pub timelock: u64,
    pub delegations: Vec<Delegation>,
}

impl GovState {
    pub open spec fn wf(&self) -> bool {
        keys_unique(self.proposals@) && keys_unique(self.receipts@) && keys_unique(self.delegations@)
    }

    pub fn new() -> (g: Self)
        ensures
            g.wf(),
            g.proposals@.len() == 0,
            g.receipts@.len() == 0,
            g.delegations@.len() == 0,
            g.counter == 0,
            g.quorum_bps == 1000,
            g.timelock == 60,
    {
        GovState {
            proposals: Vec::new(),
            receipts: Vec::new(),
            counter: 0,
            quorum_bps: 1000,
            timelock: 60,
            delegations: Vec::new(),
        }
    }

    /// The proposal with `id`, if any.
    pub open spec fn proposal(&self, id: u64) -> Option<Proposal> {
        if map_of(self.proposals@).contains_key(id) {
            Some(map_of(self.proposals@)[id])
        } else {
            None
        }
    }
}

/// Whether the votes reach the quorum: some votes were cast and the `for`
/// share, in bps, is at least `quorum_bps`.
pub open spec fn spec_has_quorum(p: Proposal, quorum_bps: i128) -> bool {
    let total = p.for_votes + p.against_votes;
    total != 0 && tdiv(p.for_votes * BPS, total) >= quorum_bps
}

/// The quorum computation stays within `i128`.
pub open spec fn quorum_fits(p: Proposal) -> bool {
    let total = p.for_votes + p.against_votes;
    &&& i128::MIN <= total <= i128::MAX
    &&& i128::MIN <= p.for_votes * BPS <= i128::MAX
    &&& !(p.for_votes * BPS == i128::MIN && total == -1)
}

/// Governance storage helpers.
pub struct GovStorage;

impl GovStorage {
    /// Hands out the next proposal id.
    pub fn next_id(g: &mut GovState) -> (id: u64)
        requires
            old(g).counter < u64::MAX,
        ensures
            id == old(g).counter + 1,
            *final(g) == (GovState { counter: id, ..*old(g) }),
    {
        g.counter = g.counter + 1;
        g.counter
    }

    pub fn save_proposal(g: &mut GovState, p: Proposal)
        requires
            old(g).wf(),
        ensures
            final(g).wf(),
            map_of(final(g).proposals@) == map_of(old(g).proposals@).insert(p.id, p),
            *final(g) == (GovState { proposals: final(g).proposals, ..*old(g) }),
    {
        upsert(&mut g.proposals, p);
    }

    pub fn get_proposal(g: &GovState, id: u64) -> (r: Option<Proposal>)
        requires
            g.wf(),
        ensures
            r == g.proposal(id),
    {
        match find_key(&g.proposals, &id) {
            Some(i) => {
                proof {
                    lemma_lookup_at(g.proposals@, i as int);
                }
                Some(g.proposals[i].clone_proposal())
            },
            None => None,
        }
    }

    /// Records the vote of `r.voter` on proposal `id`, replacing an earlier one.
    pub fn save_receipt(g: &mut GovState, id: u64, r: VoteReceipt)
        requires
            old(g).wf(),
        ensures
            final(g).wf(),
            map_of(final(g).receipts@) == map_of(old(g).receipts@).insert((id, r.voter@), ReceiptEntry { id, receipt: r }),
            *final(g) == (GovState { receipts: final(g).receipts, ..*old(g) }),
    {
        upsert(&mut g.receipts, ReceiptEntry { id, receipt: r });
    }

    pub fn get_quorum_bps(g: &GovState) -> (r: i128)
        ensures
            r == g.quorum_bps,
    {
        g.quorum_bps
    }

    pub fn set_quorum_bps(g: &mut GovState, bps: i128)
        ensures
            *final(g) == (GovState { quorum_bps: bps, ..*old(g) }),
    {
        g.quorum_bps = bps;
    }

    pub fn get_timelock(g: &GovState) -> (r: u64)
        ensures
            r == g.timelock,
    {
        g.timelock
    }

    pub fn set_timelock(g: &mut GovState, secs: u64)
        ensures
            *final(g) == (GovState { timelock: secs, ..*old(g) }),
    {
        g.timelock = secs;
    }
}

/// Governance operations.
pub struct Governance;

impl Governance {
    /// Opens a proposal with the next id; voting ends `voting_period_secs` from now.
    pub fn propose(g: &mut GovState, now: u64, proposer: &String, title: String, voting_period_secs: u64) -> (r: Proposal)
        requires
            old(g).wf(),
            old(g).counter < u64::MAX,
            now + voting_period_secs <= u64::MAX,
        ensures
            final(g).wf(),
            r == (Proposal {
                id: (old(g).counter + 1) as u64,
                proposer: *proposer,
                title,
                created: now,
                voting_ends: (now + voting_period_secs) as u64,
                queued_until: 0,
                for_votes: 0,
                against_votes: 0,
                executed: false,
            }),
            map_of(final(g).proposals@) == map_of(old(g).proposals@).insert(r.id, r),
            *final(g) == (GovState { proposals: final(g).proposals, counter: r.id, ..*old(g) }),
    {
        let id = GovStorage::next_id(g);
        let p = Proposal {
            id,
            proposer: proposer.clone(),
            title,
            created: now,
            voting_ends: now + voting_period_secs,
            queued_until: 0,
            for_votes: 0,
            against_votes: 0,
            executed: false,
        };
        GovStorage::save_proposal(g, p.clone_proposal());
        p
    }

    /// Counts a vote of `weight` for or against while voting is open and
    /// records the receipt; after the end the proposal is returned unchanged.
    pub fn vote(g: &mut GovState, now: u64, id: u64, voter: &String, support: bool, weight: i128) -> (r: Proposal)
        requires
            old(g).wf(),
            old(g).proposal(id) is Some,
            support ==> i128::MIN <= old(g).proposal(id)->Some_0.for_votes + weight <= i128::MAX,
            !support ==> i128::MIN <= old(g).proposal(id)->Some_0.against_votes + weight <= i128::MAX,
        ensures
            final(g).wf(),
            ({
                let p = old(g).proposal(id)->Some_0;
                if now > p.voting_ends {
                    r == p && *final(g) == *old(g)
                } else {
                    &&& r == (if support {
                        Proposal { for_votes: (p.for_votes + weight) as i128, ..p }
                    } else {
                        Proposal { against_votes: (p.against_votes + weight) as i128, ..p }
                    })
                    &&& map_of(final(g).proposals@) == map_of(old(g).proposals@).insert(id, r)
                    &&& map_of(final(g).receipts@) == map_of(old(g).receipts@).insert(
                        (id, voter@),
                        ReceiptEntry { id, receipt: VoteReceipt { voter: *voter, support, weight } },
                    )
                    &&& *final(g) == (GovState {
                        proposals: final(g).proposals,
                        receipts: final(g).receipts,
                        ..*old(g)
                    })
                }
            }),
    {
        let mut p = GovStorage::get_proposal(g, id).unwrap();
        if now > p.voting_ends {
            return p;
        }
        if support {
            p.for_votes = p.for_votes + weight;
        } else {
            p.against_votes = p.against_votes + weight;
        }
        proof {
            let q = map_of(g.proposals@)[id];
            crate::keyed::lemma_map_of_lookup(g.proposals@, id);
            crate::keyed::lemma_lookup_key(g.proposals@, id);
            assert(q.id == id);
        }
        GovStorage::save_receipt(g, id, VoteReceipt { voter: voter.clone(), support, weight });
        GovStorage::save_proposal(g, p.clone_proposal());
        p
    }

    /// Queues a proposal whose voting has ended with quorum: it may be
    /// executed after the timelock. The proposal is stored either way.
    pub fn queue(g: &mut GovState, now: u64, id: u64) -> (r: Proposal)
        requires
            old(g).wf(),
            old(g).proposal(id) is Some,
            quorum_fits(old(g).proposal(id)->Some_0),
            now + old(g).timelock <= u64::MAX,
        ensures
            final(g).wf(),
            ({
                let p = old(g).proposal(id)->Some_0;
                &&& r == (if spec_has_quorum(p, old(g).quorum_bps) && now >= p.voting_ends {
                    Proposal { queued_until: (now + old(g).timelock) as u64, ..p }
                } else {
                    p
                })
                &&& map_of(final(g).proposals@) == map_of(old(g).proposals@).insert(id, r)
                &&& *final(g) == (GovState { proposals: final(g).proposals, ..*old(g) })
            }),
    {
        let mut p = GovStorage::get_proposal(g, id).unwrap();
        proof {
            crate::keyed::lemma_map_of_lookup(g.proposals@, id);
            crate::keyed::lemma_lookup_key(g.proposals@, id);
        }
        let quorum = GovStorage::get_quorum_bps(g);
        let total = p.for_votes + p.against_votes;
        let have_quorum = if total == 0 {
            false
        } else {
            div_trunc(p.for_votes * BPS, total) >= quorum
        };
        if have_quorum && now >= p.voting_ends {
            p.queued_until = now + GovStorage::get_timelock(g);
        }
        GovStorage::save_proposal(g, p.clone_proposal());
        p
    }

    /// Executes a queued proposal once its timelock has passed. The
    /// proposal is stored either way.
    pub fn execute(g: &mut GovState, now: u64, id: u64) -> (r: Proposal)
        requires
            old(g).wf(),
            old(g).proposal(id) is Some,
        ensures
            final(g).wf(),
            ({
                let p = old(g).proposal(id)->Some_0;
                &&& r == (if now >= p.queued_until && p.queued_until != 0 {
                    Proposal { executed: true, ..p }
                } else {
                    p
                })
                &&& map_of(final(g).proposals@) == map_of(old(g).proposals@).insert(id, r)
                &&& *final(g) == (GovState { proposals: final(g).proposals, ..*old(g) })
            }),
    {
        let mut p = GovStorage::get_proposal(g, id).unwrap();
        proof {
            crate::keyed::lemma_map_of_lookup(g.proposals@, id);
            crate::keyed::lemma_lookup_key(g.proposals@, id);
        }
        if now >= p.queued_until && p.queued_until != 0 {
            p.executed = true;
        }
        GovStorage::save_proposal(g, p.clone_proposal());
        p
    }

    /// Delegates `from`'s votes to `to`.
    pub fn delegate(g: &mut GovState, from: &String, to: &String)
        requires
            old(g).wf(),
        ensures
            final(g).wf(),
            map_of(final(g).delegations@) == map_of(old(g).delegations@).insert(
                from@,
                Delegation { from: *from, to: *to },
            ),
            *final(g) == (GovState { delegations: final(g).delegations, ..*old(g) }),
    {
        upsert(&mut g.delegations, Delegation { from: from.clone(), to: to.clone() });
    }

    /// The delegate of `from`, if any.
    pub fn get_delegate(g: &GovState, from: &String) -> (r: Option<String>)
        requires
            g.wf(),
        ensures
            r == (if map_of(g.delegations@).contains_key(from@) {
                Some(map_of(g.delegations@)[from@].to)
            } else {
                None
            }),
    {
        match find_key(&g.delegations, from) {
            Some(i) => {
                proof {
                    lemma_lookup_at(g.delegations@, i as int);
                }
                Some(g.delegations[i].to.clone())
            },
            None => None,
        }
    }
}

} // verus!
