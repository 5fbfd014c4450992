use malachite_simulator::address::BasePeerAddress;
use malachite_simulator::context::BaseContext;
use malachite_simulator::height::BaseHeight;
use malachite_simulator::peer_set::BasePeerSet;
use malachite_simulator::round::{NilOrVal, Round};
use malachite_simulator::value::{BaseValue, BaseValueId};
use malachite_simulator::vote::VoteType;

#[test]
fn proposer_is_first_peer_for_every_height_and_round() {
    let ctx = BaseContext::new();
    let set = BasePeerSet::new(7, ctx.shared_public_key());
    for h in [0u64, 1, 2, 1000] {
        for r in [Round::Nil, Round::Number(0), Round::Number(3), Round::Number(u32::MAX)] {
            let p = ctx.select_proposer(&set, BaseHeight(h), r);
            assert_eq!(p.id, BasePeerAddress(0));
        }
    }
}

#[test]
fn peer_set_has_ordered_addresses_and_shared_key() {
    let ctx = BaseContext::new();
    let key = ctx.shared_public_key();
    assert_eq!(key.0.len(), 32);
    let set = BasePeerSet::new(5, key.clone());
    assert_eq!(set.len(), 5);
    for (i, p) in set.peers.iter().enumerate() {
        assert_eq!(p.id, BasePeerAddress(i as u32));
        assert_eq!(p.public_key.0, key.0);
        assert_eq!(p.voting_power(), 1);
    }
}

#[test]
fn votes_are_built_without_extension() {
    let h = BaseHeight(3);
    let id = NilOrVal::Val(BaseValueId(9));
    let pv = BaseContext::new_prevote(h, Round::Number(1), id, BasePeerAddress(2));
    assert_eq!(pv.vote_type, VoteType::Prevote);
    assert_eq!(pv.height, h);
    assert_eq!(pv.round, Round::Number(1));
    assert_eq!(pv.value_id, id);
    assert_eq!(pv.voter, BasePeerAddress(2));
    assert!(pv.extension.is_none());
    let pc = BaseContext::new_precommit(h, Round::Number(1), NilOrVal::Nil, BasePeerAddress(2));
    assert_eq!(pc.vote_type, VoteType::Precommit);
    assert_eq!(pc.value_id, NilOrVal::Nil);
    assert!(pc.extension.is_none());
}

#[test]
fn proposal_drops_pol_round() {
    let p = BaseContext::new_proposal(
        BaseHeight(4),
        Round::Number(2),
        BaseValue(45),
        Round::Nil,
        BasePeerAddress(1),
    );
    assert_eq!(p.height, BaseHeight(4));
    assert_eq!(p.round, Round::Number(2));
    assert_eq!(p.value, BaseValue(45));
    assert_eq!(p.proposer, BasePeerAddress(1));
}

#[test]
fn default_height_is_lowest() {
    assert_eq!(BaseHeight::default(), BaseHeight(0));
    assert_eq!(BaseHeight(0).increment(), BaseHeight(1));
}
