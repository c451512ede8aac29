use crate::access_control::require_not_paused;
use crate::error::ContractError;
use crate::events::{ApprovalEvent, ApprovalForAllEvent, Event, Events, TransferEvent};
use crate::storage::{LedgerView, Storage};
use crate::token::{Address, TokenData};
use vstd::prelude::*;

verus! {

impl LedgerView {
    /// Why `caller` may not move token `id` out of `from`'s hands, checked in this order;
    /// `None` when the move is allowed.
    pub open spec fn transfer_error(self, caller: Address, from: Address, id: u64) -> Option<
        ContractError,
    > {
        if self.is_paused() {
            Some(ContractError::Paused)
        } else if !self.tokens.contains_key(id) {
            Some(ContractError::TokenNotFound)
        } else if self.tokens[id].owner != from {
            Some(ContractError::NotOwner)
        } else if !(caller == from || self.tokens[id].approved == Some(caller) || self.is_operator(
            from,
            caller,
        )) {
            Some(ContractError::NotApproved)
        } else {
            None
        }
    }

    /// Token `id` now belongs to `to` and has no approved spender.
    pub open spec fn after_transfer(self, to: Address, id: u64) -> LedgerView {
        self.with_token(TokenData { owner: to, approved: None, ..self.tokens[id] })
    }

    /// Why `caller` may not make `spender` the approved spender of token `id`, if so.
    pub open spec fn approve_error(self, caller: Address, spender: Address, id: u64) -> Option<
        ContractError,
    > {
        if !self.tokens.contains_key(id) {
            Some(ContractError::TokenNotFound)
        } else if !(self.tokens[id].owner == caller || self.is_operator(
            self.tokens[id].owner,
            caller,
        )) {
            Some(ContractError::NotOwner)
        } else if spender == self.tokens[id].owner {
            Some(ContractError::SelfApproval)
        } else {
            None
        }
    }

    pub open spec fn after_approve(self, spender: Address, id: u64) -> LedgerView {
        self.with_token(TokenData { approved: Some(spender), ..self.tokens[id] })
    }

    pub open spec fn after_operator_approval(
        self,
        owner: Address,
        operator: Address,
        approved: bool,
    ) -> LedgerView {
        LedgerView {
            operators: if approved {
                self.operators.insert((owner.id, operator.id))
            } else {
                self.operators.remove((owner.id, operator.id))
            },
            ..self
        }
    }
}

/// The outcome of moving the tokens `ids` one after another, stopping at the first refusal:
/// the final state, the events of the moves that happened, and the refusal, if any.
pub open spec fn transfer_run(
    v: LedgerView,
    caller: Address,
    from: Address,
    to: Address,
    ids: Seq<u64>,
) -> (LedgerView, Seq<Event>, Option<ContractError>)
    decreases ids.len(),
{
    if ids.len() == 0 {
        (v, Seq::empty(), None)
    } else {
        match v.transfer_error(caller, from, ids[0]) {
            Some(e) => (v, Seq::empty(), Some(e)),
            None => {
                let rest = transfer_run(
                    v.after_transfer(to, ids[0]),
                    caller,
                    from,
                    to,
                    ids.drop_first(),
                );
                (
                    rest.0,
                    seq![Event::Transfer(TransferEvent { from, to, token_id: ids[0] })] + rest.1,
                    rest.2,
                )
            },
        }
    }
}

/// The transfer engine: ownership changes and the approvals that permit them.
pub struct Transfer;

impl Transfer {
    /// Moves token `token_id` from `from` to `to` on behalf of `caller`: the owner, the
    /// token's approved spender, or an operator of the owner. Clears the token's approval.
    pub fn transfer_from(
        store: &mut Storage,
        events: &mut Events,
        caller: Address,
        from: Address,
        to: Address,
        token_id: u64,
    ) -> (r: Result<(), ContractError>)
        requires
            old(store).wf(),
        ensures
            final(store).wf(),
            match old(store)@.transfer_error(caller, from, token_id) {
                Some(e) => {
                    &&& r == Err::<(), ContractError>(e)
                    &&& final(store)@ == old(store)@
                    &&& final(events)@ == old(events)@
                },
                None => {
                    &&& r is Ok
                    &&& final(store)@ == old(store)@.after_transfer(to, token_id)
                    &&& final(events)@ == old(events)@.push(
                        Event::Transfer(TransferEvent { from, to, token_id }),
                    )
                },
            },
    {
        require_not_paused(store)?;
        let (owner, approved) = match store.get_token(token_id) {
            Some(t) => (t.owner, t.approved),
            None => {
                return Err(ContractError::TokenNotFound);
            },
        };
        if owner != from {
            return Err(ContractError::NotOwner);
        }
        if caller != from && approved != Some(caller) && !store.is_operator_approved(from, caller) {
            return Err(ContractError::NotApproved);
        }
        store.move_token(token_id, to);
        events.emit_transfer(from, to, token_id);
        Ok(())
    }

    /// The same move as `transfer_from`; the receiver is not consulted, and `data` is
    /// handed to no one.
    pub fn safe_transfer_from(
        store: &mut Storage,
        events: &mut Events,
        caller: Address,
        from: Address,
        to: Address,
        token_id: u64,
        data: Option<Vec<u8>>,
    ) -> (r: Result<(), ContractError>)
        requires
            old(store).wf(),
        ensures
            final(store).wf(),
            match old(store)@.transfer_error(caller, from, token_id) {
                Some(e) => {
                    &&& r == Err::<(), ContractError>(e)
                    &&& final(store)@ == old(store)@
                    &&& final(events)@ == old(events)@
                },
                None => {
                    &&& r is Ok
                    &&& final(store)@ == old(store)@.after_transfer(to, token_id)
                    &&& final(events)@ == old(events)@.push(
                        Event::Transfer(TransferEvent { from, to, token_id }),
                    )
                },
            },
    {
        Self::transfer_from(store, events, caller, from, to, token_id)
    }

    /// Moves each of `token_ids` in order, failing fast: the moves before a refusal stay done.
    pub fn batch_transfer(
        store: &mut Storage,
        events: &mut Events,
        caller: Address,
        from: Address,
        to: Address,
        token_ids: Vec<u64>,
    ) -> (r: Result<(), ContractError>)
        requires
            old(store).wf(),
        ensures
            final(store).wf(),
            token_ids@.len() == 0 ==> {
                &&& r == Err::<(), ContractError>(ContractError::EmptyBatch)
                &&& final(store)@ == old(store)@
                &&& final(events)@ == old(events)@
            },
            token_ids@.len() > 0 ==> {
                let run = transfer_run(old(store)@, caller, from, to, token_ids@);
                &&& final(store)@ == run.0
                &&& final(events)@ == old(events)@ + run.1
                &&& r == match run.2 {
                    Some(e) => Err(e),
                    None => Ok(()),
                }
            },
    {
        if token_ids.len() == 0 {
            return Err(ContractError::EmptyBatch);
        }
        let n = token_ids.len();
        proof {
            assert(token_ids@.subrange(0, n as int) =~= token_ids@);
            assert(events@ + Seq::empty() =~= events@);
        }
        let ghost v0 = store@;
        let ghost e0 = events@;
        let mut i: usize = 0;
        while i < n
            invariant
                n == token_ids@.len(),
                v0 == old(store)@,
                e0 == old(events)@,
                i <= n,
                store.wf(),
                ({
                    let all = transfer_run(v0, caller, from, to, token_ids@);
                    let rest = transfer_run(
                        store@,
                        caller,
                        from,
                        to,
                        token_ids@.subrange(i as int, n as int),
                    );
                    &&& all.0 == rest.0
                    &&& e0 + all.1 == events@ + rest.1
                    &&& all.2 == rest.2
                }),
            decreases n - i,
        {
            let id = token_ids[i];
            let ghost before = store@;
            let ghost ev_before = events@;
            let ghost sub = token_ids@.subrange(i as int, n as int);
            proof {
                assert(sub[0] == id);
                assert(sub.drop_first() =~= token_ids@.subrange(i + 1, n as int));
            }
            match Self::transfer_from(store, events, caller, from, to, id) {
                Ok(()) => {
                    proof {
                        let rest = transfer_run(
                            store@,
                            caller,
                            from,
                            to,
                            token_ids@.subrange(i + 1, n as int),
                        );
                        let ev = Event::Transfer(TransferEvent { from, to, token_id: id });
                        assert(ev_before + (seq![ev] + rest.1) =~= ev_before.push(ev) + rest.1);
                    }
                },
                Err(e) => {
                    proof {
                        assert(transfer_run(before, caller, from, to, sub) == (
                            before,
                            Seq::<Event>::empty(),
                            Some(e),
                        ));
                        assert(events@ + Seq::<Event>::empty() =~= events@);
                    }
                    return Err(e);
                },
            }
            i = i + 1;
        }
        proof {
            assert(token_ids@.subrange(n as int, n as int).len() == 0);
            assert(events@ + Seq::<Event>::empty() =~= events@);
        }
        Ok(())
    }

    /// Makes `approved` the single spender of token `token_id`, replacing any earlier one.
    pub fn approve(
        store: &mut Storage,
        events: &mut Events,
        caller: Address,
        approved: Address,
        token_id: u64,
    ) -> (r: Result<(), ContractError>)
        requires
            old(store).wf(),
        ensures
            final(store).wf(),
            match old(store)@.approve_error(caller, approved, token_id) {
                Some(e) => {
                    &&& r == Err::<(), ContractError>(e)
                    &&& final(store)@ == old(store)@
                    &&& final(events)@ == old(events)@
                },
                None => {
                    &&& r is Ok
                    &&& final(store)@ == old(store)@.after_approve(approved, token_id)
                    &&& final(events)@ == old(events)@.push(
                        Event::Approval(
                            ApprovalEvent {
                                owner: old(store)@.tokens[token_id].owner,
                                approved,
                                token_id,
                            },
                        ),
                    )
                },
            },
    {
        let owner = match store.get_token(token_id) {
            Some(t) => t.owner,
            None => {
                return Err(ContractError::TokenNotFound);
            },
        };
        if owner != caller && !store.is_operator_approved(owner, caller) {
            return Err(ContractError::NotOwner);
        }
        if approved == owner {
            return Err(ContractError::SelfApproval);
        }
        store.set_approval(token_id, Some(approved));
        events.emit_approval(owner, approved, token_id);
        Ok(())
    }

    /// Grants or withdraws `operator`'s rights over all of `caller`'s tokens.
    pub fn set_approval_for_all(
        store: &mut Storage,
        events: &mut Events,
        caller: Address,
        operator: Address,
        approved: bool,
    ) -> (r: Result<(), ContractError>)
        requires
            old(store).wf(),
        ensures
            final(store).wf(),
            operator == caller ==> {
                &&& r == Err::<(), ContractError>(ContractError::SelfApproval)
                &&& final(store)@ == old(store)@
                &&& final(events)@ == old(events)@
            },
            operator != caller ==> {
                &&& r is Ok
                &&& final(store)@ == old(store)@.after_operator_approval(caller, operator, approved)
                &&& final(events)@ == old(events)@.push(
                    Event::ApprovalForAll(ApprovalForAllEvent { owner: caller, operator, approved }),
                )
            },
    {
        if operator == caller {
            return Err(ContractError::SelfApproval);
        }
        store.set_operator_approval(caller, operator, approved);
        events.emit_approval_for_all(caller, operator, approved);
        Ok(())
    }

    pub fn get_approved(store: &Storage, token_id: u64) -> (r: Result<
        Option<Address>,
        ContractError,
    >)
        ensures
            !store@.tokens.contains_key(token_id) ==> r == Err::<Option<Address>, ContractError>(
                ContractError::TokenNotFound,
            ),
            store@.tokens.contains_key(token_id) ==> r == Ok::<Option<Address>, ContractError>(
                store@.tokens[token_id].approved,
            ),
    {
        match store.get_token(token_id) {
            Some(t) => Ok(t.approved),
            None => Err(ContractError::TokenNotFound),
        }
    }

    pub fn is_approved_for_all(store: &Storage, owner: Address, operator: Address) -> (r: bool)
        ensures
            r == store@.is_operator(owner, operator),
    {
        store.is_operator_approved(owner, operator)
    }
}

} // verus!
