//! Governance as the gateway shows it.

use vstd::prelude::*;
use crate::rpc::types::{NodeNumber, RpcGovernanceInfo, RpcGovernanceObject, RpcProposalData};

verus! {

/// Object type of a proposal.
pub const PROPOSAL_OBJECT_TYPE: u32 = 1;

/// The governance figures shown.
#[derive(Debug, Clone, Copy, PartialEq, Eq, Structural)]
pub struct GovernanceInfo {
    pub governance_min_quorum: u32,
    pub proposal_fee: NodeNumber,
    pub superblock_cycle: u32,
    pub last_superblock: u64,
    pub next_superblock: u64,
    pub funding_threshold: u32,
    pub governance_budget: NodeNumber,
}

/// One proposal.
#[derive(Debug, Clone, PartialEq, Eq)]
pub struct Proposal {
    pub hash: String,
    pub name: String,
    pub url: String,
    pub payment_address: String,
    pub payment_amount: NodeNumber,
    pub start_epoch: u64,
    pub end_epoch: u64,
    pub creation_time: u64,
    pub yes_count: i32,
    pub no_count: i32,
    pub abstain_count: i32,
    pub absolute_yes_count: i32,
    pub is_funded: bool,
    pub is_valid: bool,
    pub collateral_hash: String,
}

/// Figures and proposals together.
#[derive(Debug, Clone, PartialEq, Eq)]
pub struct GovernanceOverview {
    pub info: GovernanceInfo,
    pub proposals: Vec<Proposal>,
}

impl GovernanceInfo {
    /// The figures as the node gave them.
    pub fn from_rpc(info: &RpcGovernanceInfo) -> (r: GovernanceInfo)
        ensures
            r == (GovernanceInfo {
                governance_min_quorum: info.governanceminquorum,
                proposal_fee: info.proposalfee,
                superblock_cycle: info.superblockcycle,
                last_superblock: info.lastsuperblock,
                next_superblock: info.nextsuperblock,
                funding_threshold: info.fundingthreshold,
                governance_budget: info.governancebudget,
            }),
    {
        GovernanceInfo {
            governance_min_quorum: info.governanceminquorum,
            proposal_fee: info.proposalfee,
            superblock_cycle: info.superblockcycle,
            last_superblock: info.lastsuperblock,
            next_superblock: info.nextsuperblock,
            funding_threshold: info.fundingthreshold,
            governance_budget: info.governancebudget,
        }
    }
}

/// The proposal that a governance object is, given what its data holds.
pub open spec fn proposal_of(hash: String, obj: RpcGovernanceObject, data: RpcProposalData) -> Proposal {
    Proposal {
        hash,
        name: data.name,
        url: data.url,
        payment_address: data.payment_address,
        payment_amount: data.payment_amount,
        start_epoch: data.start_epoch,
        end_epoch: data.end_epoch,
        creation_time: obj.creation_time,
        yes_count: obj.yes_count,
        no_count: obj.no_count,
        abstain_count: obj.abstain_count,
        absolute_yes_count: obj.absolute_yes_count,
        is_funded: obj.f_cached_funding,
        is_valid: obj.f_cached_valid,
        collateral_hash: obj.collateral_hash,
    }
}

impl Proposal {
    /// Shows a governance object as a proposal. `data` is what reading the
    /// object's data as that of a proposal gave. Only an object of the
    /// proposal type whose data could be read is a proposal.
    pub fn from_rpc(hash: &String, obj: &RpcGovernanceObject, data: Option<RpcProposalData>) -> (r:
        Option<Proposal>)
        ensures
            obj.object_type != PROPOSAL_OBJECT_TYPE ==> r is None,
            data is None ==> r is None,
            obj.object_type == PROPOSAL_OBJECT_TYPE ==> (data matches Some(d) ==> r == Some(
                proposal_of(*hash, *obj, d),
            )),
    {
        if obj.object_type != PROPOSAL_OBJECT_TYPE {
            return None;
        }
        match data {
            None => None,
            Some(d) => Some(
                Proposal {
                    hash: hash.clone(),
                    name: d.name,
                    url: d.url,
                    payment_address: d.payment_address,
                    payment_amount: d.payment_amount,
                    start_epoch: d.start_epoch,
                    end_epoch: d.end_epoch,
                    creation_time: obj.creation_time,
                    yes_count: obj.yes_count,
                    no_count: obj.no_count,
                    abstain_count: obj.abstain_count,
                    absolute_yes_count: obj.absolute_yes_count,
                    is_funded: obj.f_cached_funding,
                    is_valid: obj.f_cached_valid,
                    collateral_hash: obj.collateral_hash.clone(),
                },
            ),
        }
    }
}

/// Where a proposal goes in a list that is ordered newest first: before
/// the first proposal that is not newer than it, hence before all of its
/// age.
pub open spec fn newest_place(ordered: Seq<Proposal>, p: Proposal) -> int
    decreases ordered.len(),
{
    if ordered.len() == 0 || ordered[0].creation_time <= p.creation_time {
        0
    } else {
        1 + newest_place(ordered.drop_first(), p)
    }
}

/// Proposals ordered newest first; proposals of one age keep the order in
/// which they were given.
pub open spec fn newest_first(proposals: Seq<Proposal>) -> Seq<Proposal>
    decreases proposals.len(),
{
    if proposals.len() == 0 {
        Seq::empty()
    } else {
        let after = newest_first(proposals.drop_first());
        after.insert(newest_place(after, proposals[0]), proposals[0])
    }
}

proof fn lemma_newest_place_from(ordered: Seq<Proposal>, p: Proposal, k: int)
    requires
        0 <= k <= ordered.len(),
        forall|i: int| 0 <= i < k ==> (#[trigger] ordered[i]).creation_time > p.creation_time,
    ensures
        newest_place(ordered, p) == k + newest_place(ordered.subrange(k, ordered.len() as int), p),
    decreases k,
{
    if k == 0 {
        assert(ordered.subrange(0, ordered.len() as int) =~= ordered);
    } else {
        lemma_newest_place_from(ordered, p, k - 1);
        let tail = ordered.subrange(k - 1, ordered.len() as int);
        assert(tail[0] == ordered[k - 1]);
        assert(tail.drop_first() =~= ordered.subrange(k, ordered.len() as int));
    }
}

proof fn lemma_newest_place_splits(ordered: Seq<Proposal>, p: Proposal)
    requires
        forall|i: int, j: int|
            0 <= i < j < ordered.len() ==> (#[trigger] ordered[i]).creation_time >= (
            #[trigger] ordered[j]).creation_time,
    ensures
        0 <= newest_place(ordered, p) <= ordered.len(),
        forall|i: int|
            0 <= i < newest_place(ordered, p) ==> (#[trigger] ordered[i]).creation_time
                > p.creation_time,
        forall|i: int|
            newest_place(ordered, p) <= i < ordered.len() ==> (#[trigger] ordered[i]).creation_time
                <= p.creation_time,
    decreases ordered.len(),
{
    if ordered.len() == 0 {
    } else if ordered[0].creation_time <= p.creation_time {
        assert forall|i: int| 0 <= i < ordered.len() implies (#[trigger] ordered[i]).creation_time
            <= p.creation_time by {
            if i > 0 {
                assert(ordered[0].creation_time >= ordered[i].creation_time);
            }
        }
    } else {
        let rest = ordered.drop_first();
        assert forall|i: int, j: int| 0 <= i < j < rest.len() implies (
        #[trigger] rest[i]).creation_time >= (#[trigger] rest[j]).creation_time by {
            assert(rest[i] == ordered[i + 1]);
            assert(rest[j] == ordered[j + 1]);
        }
        lemma_newest_place_splits(rest, p);
        let place = newest_place(ordered, p);
        assert forall|i: int| 0 <= i < place implies (#[trigger] ordered[i]).creation_time
            > p.creation_time by {
            if i > 0 {
                assert(ordered[i] == rest[i - 1]);
            }
        }
        assert forall|i: int| place <= i < ordered.len() implies (
        #[trigger] ordered[i]).creation_time <= p.creation_time by {
            assert(ordered[i] == rest[i - 1]);
        }
    }
}

/// Orders proposals newest first.
pub fn order_newest_first(proposals: Vec<Proposal>) -> (out: Vec<Proposal>)
    ensures
        out@ == newest_first(proposals@),
{
    let mut rest = proposals;
    let ghost all = rest@;
    let mut out: Vec<Proposal> = Vec::new();
    proof {
        assert(all.subrange(all.len() as int, all.len() as int) =~= Seq::<Proposal>::empty());
    }
    while rest.len() > 0
        invariant
            rest@.len() <= all.len(),
            rest@ == all.subrange(0, rest@.len() as int),
            out@ == newest_first(all.subrange(rest@.len() as int, all.len() as int)),
        decreases rest.len(),
    {
        let ghost n = rest@.len() as int;
        let next = rest.pop().unwrap();
        proof {
            assert(next == all[n - 1]);
            let from_next = all.subrange(n - 1, all.len() as int);
            assert(from_next[0] == next);
            assert(from_next.drop_first() =~= all.subrange(n, all.len() as int));
            assert(rest@ =~= all.subrange(0, n - 1));
        }
        let mut k: usize = 0;
        while k < out.len() && out[k].creation_time > next.creation_time
            invariant
                0 <= k <= out.len(),
                forall|i: int| 0 <= i < k ==> (#[trigger] out@[i]).creation_time
                    > next.creation_time,
            decreases out.len() - k,
        {
            k = k + 1;
        }
        proof {
            lemma_newest_place_from(out@, next, k as int);
            let tail = out@.subrange(k as int, out@.len() as int);
            if k < out.len() {
                assert(tail[0] == out@[k as int]);
            }
            assert(newest_place(tail, next) == 0);
        }
        out.insert(k, next);
    }
    proof {
        assert(all.subrange(0, all.len() as int) =~= all);
    }
    out
}

/// A list ordered newest first is in order: no proposal stands before a
/// newer one.
pub proof fn lemma_newest_first_is_ordered(proposals: Seq<Proposal>)
    ensures
        newest_first(proposals).len() == proposals.len(),
        forall|i: int, j: int|
            0 <= i < j < newest_first(proposals).len() ==> (#[trigger] newest_first(
                proposals,
            )[i]).creation_time >= (#[trigger] newest_first(proposals)[j]).creation_time,
    decreases proposals.len(),
{
    if proposals.len() > 0 {
        lemma_newest_first_is_ordered(proposals.drop_first());
        let before = newest_first(proposals.drop_first());
        let p = proposals[0];
        lemma_newest_place_splits(before, p);
        let place = newest_place(before, p);
        let after = before.insert(place, p);
        assert forall|i: int, j: int| 0 <= i < j < after.len() implies (
        #[trigger] after[i]).creation_time >= (#[trigger] after[j]).creation_time by {
            if j < place {
                assert(after[i] == before[i]);
                assert(after[j] == before[j]);
            } else if j == place {
                assert(after[i] == before[i]);
            } else if i < place {
                assert(after[i] == before[i]);
                assert(after[j] == before[j - 1]);
            } else if i == place {
                assert(after[j] == before[j - 1]);
            } else {
                assert(after[i] == before[i - 1]);
                assert(after[j] == before[j - 1]);
            }
        }
    }
}

} // verus!
