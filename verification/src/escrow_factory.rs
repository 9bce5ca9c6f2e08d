//! The factory: registers the terms of each new leg under a fresh
//! identifier, for its owner only.

use vstd::prelude::*;
use std::collections::HashMap;
use vstd::string::StringExecFns;
use crate::account::{is_name_char, is_separator, valid_account_name, AccountId};
use crate::types::{
    Balance, CrossChainOrder, EscrowError, EscrowId, EscrowImmutables, TimeLocks, Timestamp,
};

verus! {

broadcast use vstd::std_specs::hash::group_hash_axioms;

/// The terms under which a source leg is registered: not deployed yet.
pub open spec fn src_terms(
    order: CrossChainOrder,
    time_locks: TimeLocks,
    taker: AccountId,
    amount: Balance,
) -> EscrowImmutables {
    EscrowImmutables { order, time_locks, deployed_at: 0, taker, amount }
}

/// The terms under which a destination leg is registered at time `now`:
/// its clock starts at `now`, whatever the caller supplied.
pub open spec fn dst_terms(immutables: EscrowImmutables, now: Timestamp) -> EscrowImmutables {
    EscrowImmutables { deployed_at: now, ..immutables }
}

/// The character for the decimal digit `d`.
pub open spec fn digit(d: u64) -> char {
    if d == 0 {
        '0'
    } else if d == 1 {
        '1'
    } else if d == 2 {
        '2'
    } else if d == 3 {
        '3'
    } else if d == 4 {
        '4'
    } else if d == 5 {
        '5'
    } else if d == 6 {
        '6'
    } else if d == 7 {
        '7'
    } else if d == 8 {
        '8'
    } else {
        '9'
    }
}

/// `n` written in decimal, without leading zeros.
pub open spec fn decimal(n: u64) -> Seq<char>
    decreases n,
{
    if n < 10 {
        seq![digit(n)]
    } else {
        decimal(n / 10).push(digit(n % 10))
    }
}

/// The name of the account at which the leg `id` of the factory at
/// `factory` lives: `escrow_`, the identifier in decimal, a dot, and the
/// factory's own name.
pub open spec fn leg_account_name(id: EscrowId, factory: Seq<char>) -> Seq<char> {
    seq!['e', 's', 'c', 'r', 'o', 'w', '_'] + decimal(id) + seq!['.'] + factory
}

/// What is written in decimal is made of digits, at least one.
pub proof fn decimal_is_digits(n: u64)
    ensures
        decimal(n).len() >= 1,
        forall|i: int| 0 <= i < decimal(n).len() ==> is_name_char(#[trigger] decimal(n)[i]),
    decreases n,
{
    if n >= 10 {
        decimal_is_digits(n / 10);
    }
}

/// The name of a leg's account is valid exactly when it is not too long,
/// for a factory whose own name is valid.
pub proof fn leg_account_name_is_valid_unless_too_long(id: EscrowId, factory: Seq<char>)
    requires
        valid_account_name(factory),
    ensures
        valid_account_name(leg_account_name(id, factory)) <==> leg_account_name(id, factory).len()
            <= 64,
        leg_account_name(id, factory).len() == 8 + decimal(id).len() + factory.len(),
{
    decimal_is_digits(id);
    let prefix = seq!['e', 's', 'c', 'r', 'o', 'w', '_'];
    let digits = decimal(id);
    let name = leg_account_name(id, factory);
    let d = digits.len() as int;
    assert(name.len() == 8 + d + factory.len());
    assert forall|i: int| 0 <= i < name.len() implies (if i < 7 {
        name[i] == prefix[i]
    } else if i < 7 + d {
        name[i] == digits[i - 7]
    } else if i == 7 + d {
        name[i] == '.'
    } else {
        name[i] == factory[i - 8 - d]
    }) by {}
    if name.len() <= 64 {
        assert forall|i: int| 0 <= i < name.len() implies is_name_char(#[trigger] name[i])
            || is_separator(name[i]) by {
            if 7 <= i < 7 + d {
                assert(is_name_char(digits[i - 7]));
            } else if i > 7 + d {
                assert(is_name_char(factory[i - 8 - d]) || is_separator(factory[i - 8 - d]));
            }
        }
        assert forall|i: int| 0 <= i < name.len() - 1 implies !(is_separator(#[trigger] name[i])
            && is_separator(name[i + 1])) by {
            if i == 6 {
                assert(is_name_char(digits[0]));
            } else if 7 <= i < 7 + d {
                assert(is_name_char(digits[i - 7]));
            } else if i == 7 + d {
                assert(name[i + 1] == factory[0]);
            } else if i > 7 + d {
                let k = i - 8 - d;
                assert(!(is_separator(factory[k]) && is_separator(factory[k + 1])));
                assert(name[i + 1] == factory[k + 1]);
            }
        }
        assert(name[0] == 'e');
        assert(name[name.len() - 1] == factory[factory.len() - 1]);
    }
}

/// The decimal digit `d` as text.
fn digit_text(d: u64) -> (text: &'static str)
    requires
        d < 10,
    ensures
        text@ == seq![digit(d)],
{
    proof {
        reveal_strlit("0");
        reveal_strlit("1");
        reveal_strlit("2");
        reveal_strlit("3");
        reveal_strlit("4");
        reveal_strlit("5");
        reveal_strlit("6");
        reveal_strlit("7");
        reveal_strlit("8");
        reveal_strlit("9");
    }
    let text = if d == 0 {
        "0"
    } else if d == 1 {
        "1"
    } else if d == 2 {
        "2"
    } else if d == 3 {
        "3"
    } else if d == 4 {
        "4"
    } else if d == 5 {
        "5"
    } else if d == 6 {
        "6"
    } else if d == 7 {
        "7"
    } else if d == 8 {
        "8"
    } else {
        "9"
    };
    assert(text@ =~= seq![digit(d)]);
    text
}

/// Writes `n` in decimal.
pub fn decimal_text(n: u64) -> (text: String)
    ensures
        text@ == decimal(n),
    decreases n,
{
    if n < 10 {
        String::from_str(digit_text(n))
    } else {
        let mut text = decimal_text(n / 10);
        text.append(digit_text(n % 10));
        assert(text@ =~= decimal(n / 10).push(digit(n % 10)));
        text
    }
}

/// The account at which the leg `id` of the factory at `factory` lives, or
/// `None` where the name built for it is no valid account name, which is
/// where it is longer than 64 characters.
pub fn leg_account(id: EscrowId, factory: &AccountId) -> (r: Option<AccountId>)
    ensures
        r is Some <==> valid_account_name(leg_account_name(id, factory@)),
        r is Some <==> 8 + decimal(id).len() + factory@.len() <= 64,
        r matches Some(account) ==> account@ == leg_account_name(id, factory@),
{
    proof {
        reveal_strlit("escrow_");
        reveal_strlit(".");
    }
    let factory_name = factory.as_str();
    proof {
        leg_account_name_is_valid_unless_too_long(id, factory_name@);
    }
    let mut name = String::from_str("escrow_");
    let digits = decimal_text(id);
    name.append(digits.as_str());
    name.append(".");
    name.append(factory_name);
    assert(name@ =~= leg_account_name(id, factory@));
    AccountId::parse(name.as_str())
}

/// A request to the ledger to set up the leg `escrow_id`: the account to
/// create, the terms and the hash to start the leg with, and the value to
/// fund it with.
#[derive(Debug, PartialEq, Eq)]
pub struct Deployment {
    pub escrow_id: EscrowId,
    pub account: AccountId,
    pub immutables: EscrowImmutables,
    pub secret_hash: String,
    pub funding: Balance,
}

/// What a call that creates a leg brings with it: who calls, the account at
/// which the factory lives, the deposit attached to the call, and the terms
/// and the hash of the leg.
pub ghost struct CreationRequest {
    pub caller: AccountId,
    pub factory: Seq<char>,
    pub attached_deposit: Balance,
    pub terms: EscrowImmutables,
    pub secret_hash: Seq<char>,
}

/// Whether the leg `escrow_id` with `amount` can be set up by the factory
/// living at `factory` when `attached_deposit` comes with the call: the
/// name of its account is valid and its funding fits a balance.
pub open spec fn deployable(
    escrow_id: EscrowId,
    factory: Seq<char>,
    amount: Balance,
    attached_deposit: Balance,
) -> bool {
    &&& valid_account_name(leg_account_name(escrow_id, factory))
    &&& amount + attached_deposit <= u128::MAX
}

/// A registry of legs and the counter from which their identifiers come.
#[derive(Debug)]
pub struct EscrowFactory {
    pub owner_id: AccountId,
    pub escrows: HashMap<EscrowId, EscrowImmutables>,
    pub escrow_counter: u64,
}

impl EscrowFactory {
    /// The registry holds exactly the identifiers below the counter.
    pub open spec fn wf(&self) -> bool {
        forall|id: EscrowId| #[trigger] self.escrows@.contains_key(id) <==> id < self.escrow_counter
    }

    /// Whether `caller` may create legs.
    pub open spec fn authorizes(&self, caller: AccountId) -> bool {
        caller@ == self.owner_id@
    }

    /// The factory after it has registered `terms`: the terms stand under
    /// the old counter, every older entry is kept, and the counter is one
    /// higher.
    pub open spec fn registered(&self, after: EscrowFactory, terms: EscrowImmutables) -> bool {
        &&& after.owner_id == self.owner_id
        &&& after.escrow_counter == self.escrow_counter + 1
        &&& after.escrows@ == self.escrows@.insert(self.escrow_counter, terms)
    }

    /// Whether `deployment` is the request that sets up the next leg of
    /// this factory as `request` asks: for the counter as identifier, at
    /// the leg's account, with the requested terms and hash, funded with
    /// the amount plus the attached deposit.
    pub open spec fn deploys(&self, request: CreationRequest, deployment: Deployment) -> bool {
        &&& deployment.escrow_id == self.escrow_counter
        &&& deployment.account@ == leg_account_name(self.escrow_counter, request.factory)
        &&& deployment.immutables == request.terms
        &&& deployment.secret_hash@ == request.secret_hash
        &&& deployment.funding == request.terms.amount + request.attached_deposit
    }

    /// What answering `request` does. A stranger is turned away. For the
    /// owner, a leg that cannot be deployed is refused; otherwise the leg
    /// is registered under the old counter and the one request that sets
    /// it up is handed out. Whoever is refused leaves the factory as it
    /// was.
    pub open spec fn created(
        &self,
        after: EscrowFactory,
        request: CreationRequest,
        outcome: Result<Deployment, EscrowError>,
    ) -> bool {
        if !self.authorizes(request.caller) {
            outcome == Err::<Deployment, EscrowError>(EscrowError::Unauthorized) && after == *self
        } else if !deployable(
            self.escrow_counter,
            request.factory,
            request.terms.amount,
            request.attached_deposit,
        ) {
            outcome == Err::<Deployment, EscrowError>(EscrowError::NotDeployable) && after == *self
        } else {
            &&& outcome matches Ok(deployment)
            &&& self.deploys(request, deployment)
            &&& self.registered(after, request.terms)
        }
    }

    /// An empty factory owned by `owner_id`.
    pub fn new(owner_id: AccountId) -> (factory: Self)
        ensures
            factory.wf(),
            factory.owner_id == owner_id,
            factory.escrow_counter == 0,
            factory.escrows@ == Map::<EscrowId, EscrowImmutables>::empty(),
    {
        EscrowFactory { owner_id, escrows: HashMap::new(), escrow_counter: 0 }
    }

    /// For the owner, registers `terms` under the next identifier and
    /// builds the request that sets the leg up, or refuses a leg that
    /// cannot be deployed before anything is registered.
    fn create(
        &mut self,
        caller: &AccountId,
        factory: &AccountId,
        attached_deposit: Balance,
        terms: EscrowImmutables,
        secret_hash: String,
    ) -> (r: Result<Deployment, EscrowError>)
        requires
            old(self).authorizes(*caller) ==> old(self).escrow_counter < u64::MAX,
        ensures
            old(self).wf() ==> final(self).wf(),
            old(self).created(
                *final(self),
                CreationRequest {
                    caller: *caller,
                    factory: factory@,
                    attached_deposit,
                    terms,
                    secret_hash: secret_hash@,
                },
                r,
            ),
    {
        if !caller.same_as(&self.owner_id) {
            return Err(EscrowError::Unauthorized);
        }
        let escrow_id = self.escrow_counter;
        let funding = match terms.amount.checked_add(attached_deposit) {
            Some(funding) => funding,
            None => { return Err(EscrowError::NotDeployable); },
        };
        let account = match leg_account(escrow_id, factory) {
            Some(account) => account,
            None => { return Err(EscrowError::NotDeployable); },
        };
        let immutables = terms.clone();
        self.escrows.insert(escrow_id, terms);
        self.escrow_counter = escrow_id + 1;
        Ok(Deployment { escrow_id, account, immutables, secret_hash, funding })
    }

    /// Registers a source leg for the owner, recorded as not deployed yet,
    /// and returns the request that sets it up, with the new identifier in
    /// it. `factory` is the account at which this factory lives and
    /// `attached_deposit` what came with the call. Any other caller is
    /// turned away with `Unauthorized`; a leg that cannot be deployed is
    /// refused with `NotDeployable`.
    pub fn create_src_escrow(
        &mut self,
        caller: &AccountId,
        factory: &AccountId,
        attached_deposit: Balance,
        order: CrossChainOrder,
        time_locks: TimeLocks,
        taker: AccountId,
        amount: Balance,
        secret_hash: String,
    ) -> (r: Result<Deployment, EscrowError>)
        requires
            old(self).authorizes(*caller) ==> old(self).escrow_counter < u64::MAX,
        ensures
            old(self).wf() ==> final(self).wf(),
            old(self).created(
                *final(self),
                CreationRequest {
                    caller: *caller,
                    factory: factory@,
                    attached_deposit,
                    terms: src_terms(order, time_locks, taker, amount),
                    secret_hash: secret_hash@,
                },
                r,
            ),
    {
        let terms = EscrowImmutables::new(order, time_locks, taker, amount);
        self.create(caller, factory, attached_deposit, terms, secret_hash)
    }

    /// Registers a destination leg for the owner, deployed at `now`, and
    /// returns the request that sets it up, with the new identifier in it.
    /// The leg stores no hash. `factory` is the account at which this
    /// factory lives and `attached_deposit` what came with the call. Any
    /// other caller is turned away with `Unauthorized`; a leg that cannot
    /// be deployed is refused with `NotDeployable`.
    pub fn create_dst_escrow(
        &mut self,
        caller: &AccountId,
        factory: &AccountId,
        attached_deposit: Balance,
        immutables: EscrowImmutables,
        now: Timestamp,
    ) -> (r: Result<Deployment, EscrowError>)
        requires
            old(self).authorizes(*caller) ==> old(self).escrow_counter < u64::MAX,
        ensures
            old(self).wf() ==> final(self).wf(),
            old(self).created(
                *final(self),
                CreationRequest {
                    caller: *caller,
                    factory: factory@,
                    attached_deposit,
                    terms: dst_terms(immutables, now),
                    secret_hash: Seq::<char>::empty(),
                },
                r,
            ),
    {
        let terms = immutables.with_deployed_at(now);
        self.create(caller, factory, attached_deposit, terms, String::new())
    }

    /// The terms registered under `escrow_id`, if any.
    pub fn get_escrow(&self, escrow_id: EscrowId) -> (r: Option<EscrowImmutables>)
        ensures
            r == (if self.escrows@.contains_key(escrow_id) {
                Some(self.escrows@[escrow_id])
            } else {
                None
            }),
    {
        match self.escrows.get(&escrow_id) {
            Some(terms) => Some(terms.clone()),
            None => None,
        }
    }

    /// The number of legs created so far, which is the next identifier.
    pub fn get_escrow_counter(&self) -> (n: u64)
        ensures
            n == self.escrow_counter,
    {
        self.escrow_counter
    }
}

/// A caller other than the owner is always turned away with `Unauthorized`,
/// whatever the counter holds, and the attempt changes neither the registry
/// nor the counter and hands out no request to the ledger.
pub proof fn stranger_changes_nothing(
    before: EscrowFactory,
    after: EscrowFactory,
    request: CreationRequest,
    outcome: Result<Deployment, EscrowError>,
)
    requires
        before.created(after, request, outcome),
        !before.authorizes(request.caller),
    ensures
        outcome == Err::<Deployment, EscrowError>(EscrowError::Unauthorized),
        after.escrow_counter == before.escrow_counter,
        after.escrows@ == before.escrows@,
        after == before,
{
}

/// Either everything commits or nothing is recorded: a creation that is
/// answered with an error leaves the factory as it was, and one that is
/// answered with a request has registered exactly the terms that the
/// request seeds the leg with, under the identifier in the request.
pub proof fn creation_is_all_or_nothing(
    before: EscrowFactory,
    after: EscrowFactory,
    request: CreationRequest,
    outcome: Result<Deployment, EscrowError>,
)
    requires
        before.created(after, request, outcome),
    ensures
        outcome is Err ==> after == before,
        outcome matches Ok(deployment) ==> {
            &&& after.escrows@.contains_key(deployment.escrow_id)
            &&& after.escrows@[deployment.escrow_id] == deployment.immutables
            &&& after.escrow_counter == deployment.escrow_id + 1
            &&& deployment.funding == deployment.immutables.amount + request.attached_deposit
            &&& valid_account_name(deployment.account@)
        },
        outcome is Ok <==> before.authorizes(request.caller) && deployable(
            before.escrow_counter,
            request.factory,
            request.terms.amount,
            request.attached_deposit,
        ),
{
}

/// Creating a leg never lowers the counter and never removes or rewrites
/// an entry of the registry; an identifier that is handed out was free
/// before and holds the new terms after.
pub proof fn registry_is_append_only(
    before: EscrowFactory,
    after: EscrowFactory,
    request: CreationRequest,
    outcome: Result<Deployment, EscrowError>,
)
    requires
        before.wf(),
        before.created(after, request, outcome),
    ensures
        after.escrow_counter >= before.escrow_counter,
        forall|id: EscrowId| #[trigger]
            before.escrows@.contains_key(id) ==> after.escrows@.contains_key(id)
                && after.escrows@[id] == before.escrows@[id],
        outcome matches Ok(deployment) ==> {
            &&& !before.escrows@.contains_key(deployment.escrow_id)
            &&& after.escrows@.contains_key(deployment.escrow_id)
            &&& after.escrows@[deployment.escrow_id] == request.terms
        },
{
}

/// Whether `states` is what a factory went through while it answered the
/// run of `requests`, each answered with the outcome at its place.
pub open spec fn is_history(
    states: Seq<EscrowFactory>,
    requests: Seq<CreationRequest>,
    outcomes: Seq<Result<Deployment, EscrowError>>,
) -> bool {
    &&& states.len() == outcomes.len() + 1
    &&& requests.len() == outcomes.len()
    &&& forall|i: int|
        0 <= i < outcomes.len() ==> states[i].created(
            states[i + 1],
            requests[i],
            #[trigger] outcomes[i],
        )
}

/// The counter never goes down in the course of a history.
pub proof fn counter_only_grows(
    states: Seq<EscrowFactory>,
    requests: Seq<CreationRequest>,
    outcomes: Seq<Result<Deployment, EscrowError>>,
    i: int,
    j: int,
)
    requires
        is_history(states, requests, outcomes),
        0 <= i <= j < states.len(),
    ensures
        states[i].escrow_counter <= states[j].escrow_counter,
    decreases j - i,
{
    if i < j {
        counter_only_grows(states, requests, outcomes, i, j - 1);
        let _ = outcomes[j - 1];
    }
}

/// Identifiers strictly increase: of two legs created in the course of one
/// history, whatever was asked in between, the later one has the greater
/// identifier. So no two legs ever share one.
pub proof fn identifiers_strictly_increase(
    states: Seq<EscrowFactory>,
    requests: Seq<CreationRequest>,
    outcomes: Seq<Result<Deployment, EscrowError>>,
    i: int,
    j: int,
)
    requires
        is_history(states, requests, outcomes),
        0 <= i < j < outcomes.len(),
        outcomes[i] is Ok,
        outcomes[j] is Ok,
    ensures
        outcomes[i]->Ok_0.escrow_id < outcomes[j]->Ok_0.escrow_id,
{
    counter_only_grows(states, requests, outcomes, i + 1, j);
}

} // verus!
