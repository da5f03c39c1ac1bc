//! Walking the answer records from a name, through its aliases, to its addresses.

use vstd::prelude::*;
use crate::name::{DomainName, NameView};
use crate::record::{AnswerRecord, Ipv4Address, RecordView};

verus! {

/// Why a walk ended without an address.
#[derive(Clone, Copy, Debug, PartialEq, Eq, Structural)]
pub enum ChaseFailure {
    /// No record gives an address of the name that the walk arrived at.
    NoAddress,
    /// A name has an address and, after it, an alias.
    Conflict,
    /// An alias leads back to a name that the walk has left.
    Loop,
}

/// The addresses of `key`'s owner among the records, in the records' order.
pub open spec fn addresses_of(records: Seq<RecordView>, key: Seq<Seq<u8>>) -> Seq<Ipv4Address>
    decreases records.len(),
{
    if records.len() == 0 {
        Seq::empty()
    } else {
        let before = addresses_of(records.drop_last(), key);
        if records.last().is_address_of(key) {
            before.push(records.last()->ip)
        } else {
            before
        }
    }
}

/// Record `j` is the first that names `key`'s owner as an alias.
pub open spec fn is_first_alias(records: Seq<RecordView>, key: Seq<Seq<u8>>, j: int) -> bool {
    &&& 0 <= j < records.len()
    &&& records[j].is_alias_of(key)
    &&& forall|i: int| 0 <= i < j ==> !(#[trigger] records[i]).is_alias_of(key)
}

/// The place of the first record that names `key`'s owner as an alias.
pub open spec fn first_alias(records: Seq<RecordView>, key: Seq<Seq<u8>>) -> Option<int> {
    if exists|j: int| is_first_alias(records, key, j) {
        Some(choose|j: int| is_first_alias(records, key, j))
    } else {
        None
    }
}

/// How one pass over the records ends.
pub ghost enum Pass {
    /// No record is an alias of the name: these are its addresses.
    Finished(Seq<Ipv4Address>),
    /// The name's first alias comes after an address of the name.
    Conflict,
    /// The name's first alias comes before any address of it, and leads here.
    Follow(NameView),
}

/// One pass over all records for the owner `key`: the records are read in
/// their order up to the owner's first alias.
pub open spec fn pass(records: Seq<RecordView>, key: Seq<Seq<u8>>) -> Pass {
    match first_alias(records, key) {
        None => Pass::Finished(addresses_of(records, key)),
        Some(j) => if addresses_of(records.take(j), key).len() > 0 {
            Pass::Conflict
        } else {
            Pass::Follow(records[j]->target)
        },
    }
}

/// The number of alias records whose owner the walk has not left yet.
pub open spec fn unfollowed(records: Seq<RecordView>, visited: Set<Seq<Seq<u8>>>) -> nat
    decreases records.len(),
{
    if records.len() == 0 {
        0
    } else {
        let before = unfollowed(records.drop_last(), visited);
        if records.last() is Alias && !visited.contains(records.last()->Alias_owner.key()) {
            before + 1
        } else {
            before
        }
    }
}

/// Leaving one more owner never raises the number of aliases still open.
pub proof fn lemma_unfollowed_monotone(
    records: Seq<RecordView>,
    visited: Set<Seq<Seq<u8>>>,
    key: Seq<Seq<u8>>,
)
    ensures
        unfollowed(records, visited.insert(key)) <= unfollowed(records, visited),
    decreases records.len(),
{
    if records.len() > 0 {
        lemma_unfollowed_monotone(records.drop_last(), visited, key);
    }
}

/// Leaving an owner that has an alias record lowers the number of aliases
/// still open.
pub proof fn lemma_follow_shrinks(
    records: Seq<RecordView>,
    visited: Set<Seq<Seq<u8>>>,
    key: Seq<Seq<u8>>,
    j: int,
)
    requires
        0 <= j < records.len(),
        records[j].is_alias_of(key),
        !visited.contains(key),
    ensures
        unfollowed(records, visited.insert(key)) < unfollowed(records, visited),
    decreases records.len(),
{
    if j == records.len() - 1 {
        lemma_unfollowed_monotone(records.drop_last(), visited, key);
    } else {
        lemma_follow_shrinks(records.drop_last(), visited, key, j);
    }
}

/// The state of a walk, as a mathematical value.
pub ghost enum StateView {
    /// The records are to be read for `target`; the walk has followed an
    /// alias of each owner in `visited`.
    Scanning { target: NameView, visited: Set<Seq<Seq<u8>>> },
    /// The walk has arrived at a name with these addresses.
    Resolved(Seq<Ipv4Address>),
    /// The walk has failed.
    Failed(ChaseFailure),
}

impl StateView {
    /// The state in which the walk for `query` begins.
    pub open spec fn start(query: NameView) -> StateView {
        StateView::Scanning { target: query, visited: Set::empty() }
    }

    /// A walk that has arrived has at least one address.
    pub open spec fn well_formed(self) -> bool {
        self matches StateView::Resolved(found) ==> found.len() > 0
    }
}

/// The state after one more pass over the records. A state in which the walk
/// has ended stays as it is.
pub open spec fn step(records: Seq<RecordView>, state: StateView) -> StateView {
    match state {
        StateView::Scanning { target, visited } => if visited.contains(target.key()) {
            StateView::Failed(ChaseFailure::Loop)
        } else {
            match pass(records, target.key()) {
                Pass::Finished(found) => if found.len() > 0 {
                    StateView::Resolved(found)
                } else {
                    StateView::Failed(ChaseFailure::NoAddress)
                },
                Pass::Conflict => StateView::Failed(ChaseFailure::Conflict),
                Pass::Follow(next) => StateView::Scanning {
                    target: next,
                    visited: visited.insert(target.key()),
                },
            }
        },
        _ => state,
    }
}

/// A bound on the passes that a walk still makes from a state.
pub open spec fn passes_left(records: Seq<RecordView>, state: StateView) -> nat {
    match state {
        StateView::Scanning { visited, .. } => unfollowed(records, visited) + 1,
        _ => 0,
    }
}

/// Every pass brings the walk nearer to its end.
pub proof fn lemma_step_shrinks(records: Seq<RecordView>, state: StateView)
    requires
        state is Scanning,
    ensures
        passes_left(records, step(records, state)) < passes_left(records, state),
{
    if let StateView::Scanning { target, visited } = state {
        if !visited.contains(target.key()) {
            if pass(records, target.key()) is Follow {
                let j = choose|j: int| is_first_alias(records, target.key(), j);
                lemma_follow_shrinks(records, visited, target.key(), j);
            }
        }
    }
}

/// How the walk from a state ends: with the addresses of the name that it
/// arrives at, or with the reason for which it fails.
pub open spec fn settle(records: Seq<RecordView>, state: StateView) -> Result<
    Seq<Ipv4Address>,
    ChaseFailure,
>
    decreases passes_left(records, state),
{
    match state {
        StateView::Resolved(found) => Ok(found),
        StateView::Failed(reason) => Err(reason),
        StateView::Scanning { .. } => {
            proof {
                lemma_step_shrinks(records, state);
            }
            settle(records, step(records, state))
        },
    }
}

/// How the walk for the name that was asked for ends.
pub open spec fn chase_result(records: Seq<RecordView>, query: NameView) -> Result<
    Seq<Ipv4Address>,
    ChaseFailure,
> {
    settle(records, StateView::start(query))
}

/// How one pass over the records ended.
#[derive(Clone, Debug)]
pub enum PassEnd<'a> {
    /// No record is an alias of the name: these are its addresses.
    Finished(Vec<Ipv4Address>),
    /// The name's first alias comes after an address of the name.
    Conflict,
    /// The record at `at` is the name's first alias, no address of the name
    /// comes before it, and it leads to `next`.
    Follow { at: usize, next: &'a DomainName },
}

impl<'a> PassEnd<'a> {
    /// What the pass says, given the records that it read.
    pub open spec fn describes(self, records: Seq<RecordView>, key: Seq<Seq<u8>>) -> bool {
        match self {
            PassEnd::Finished(found) => pass(records, key) == Pass::Finished(found@),
            PassEnd::Conflict => pass(records, key) == Pass::Conflict,
            PassEnd::Follow { at, next } => {
                &&& is_first_alias(records, key, at as int)
                &&& records[at as int]->target == next@
                &&& pass(records, key) == Pass::Follow(next@)
            },
        }
    }
}

/// The first alias of an owner is the only one that is the first.
pub proof fn lemma_first_alias_is(records: Seq<RecordView>, key: Seq<Seq<u8>>, j: int)
    requires
        is_first_alias(records, key, j),
    ensures
        first_alias(records, key) == Some(j),
{
    let c = choose|c: int| is_first_alias(records, key, c);
    assert(is_first_alias(records, key, c));
    if c < j {
        assert(!records[c].is_alias_of(key));
    }
    if j < c {
        assert(!records[j].is_alias_of(key));
    }
}

/// Reading one record more adds its address, if it is one of the owner's.
pub proof fn lemma_addresses_step(records: Seq<RecordView>, key: Seq<Seq<u8>>, i: int)
    requires
        0 <= i < records.len(),
    ensures
        addresses_of(records.take(i + 1), key) == if records[i].is_address_of(key) {
            addresses_of(records.take(i), key).push(records[i]->ip)
        } else {
            addresses_of(records.take(i), key)
        },
{
    assert(records.take(i + 1).drop_last() =~= records.take(i));
}

/// Makes one pass over all records for `target`: collects the addresses of
/// `target` in the records' order, and stops at the first alias of `target`.
pub fn scan<'a>(records: &'a Vec<AnswerRecord>, target: &DomainName) -> (end: PassEnd<'a>)
    ensures
        end.describes(records.deep_view(), target@.key()),
{
    let ghost all = records.deep_view();
    let ghost key = target@.key();
    let mut found: Vec<Ipv4Address> = Vec::new();
    let mut i: usize = 0;
    while i < records.len()
        invariant
            i <= records.len(),
            all == records.deep_view(),
            key == target@.key(),
            forall|k: int| 0 <= k < i ==> !(#[trigger] all[k]).is_alias_of(key),
            found@ == addresses_of(all.take(i as int), key),
        decreases records.len() - i,
    {
        proof {
            lemma_addresses_step(all, key, i as int);
        }
        match &records[i] {
            AnswerRecord::Alias { owner, target: next } => {
                if owner.same_name(target) {
                    proof {
                        lemma_first_alias_is(all, key, i as int);
                    }
                    if found.len() > 0 {
                        return PassEnd::Conflict;
                    } else {
                        return PassEnd::Follow { at: i, next };
                    }
                }
            },
            AnswerRecord::Address { owner, ip } => {
                if owner.same_name(target) {
                    found.push(*ip);
                }
            },
            AnswerRecord::Other => {},
        }
        i += 1;
    }
    proof {
        assert(all.take(i as int) =~= all);
        assert(!exists|j: int| is_first_alias(all, key, j));
    }
    PassEnd::Finished(found)
}

/// The owners that the walk has left.
pub open spec fn keys_of(visited: Seq<&DomainName>) -> Set<Seq<Seq<u8>>> {
    Set::new(
        |key: Seq<Seq<u8>>|
            exists|i: int| 0 <= i < visited.len() && (#[trigger] visited[i])@.key() == key,
    )
}

/// Whether the walk has left `target`.
pub fn has_left(visited: &Vec<&DomainName>, target: &DomainName) -> (left: bool)
    ensures
        left == keys_of(visited@).contains(target@.key()),
{
    let mut i: usize = 0;
    while i < visited.len()
        invariant
            i <= visited.len(),
            forall|k: int| 0 <= k < i ==> (#[trigger] visited@[k])@.key() != target@.key(),
        decreases visited.len() - i,
    {
        if visited[i].same_name(target) {
            return true;
        }
        i += 1;
    }
    false
}

/// The state of a walk over the answer records.
#[derive(Clone, Debug)]
pub enum ChaseState<'a> {
    /// The records are to be read for `target`; the walk has followed an
    /// alias of each name in `visited`.
    Scanning { target: &'a DomainName, visited: Vec<&'a DomainName> },
    /// The walk has arrived at a name with these addresses.
    Resolved(Vec<Ipv4Address>),
    /// The walk has failed.
    Failed(ChaseFailure),
}

impl<'a> View for ChaseState<'a> {
    type V = StateView;

    open spec fn view(&self) -> StateView {
        match *self {
            ChaseState::Scanning { target, visited } => StateView::Scanning {
                target: target@,
                visited: keys_of(visited@),
            },
            ChaseState::Resolved(found) => StateView::Resolved(found@),
            ChaseState::Failed(reason) => StateView::Failed(reason),
        }
    }
}

/// Leaving one name more adds its owner to those that the walk has left.
pub proof fn lemma_keys_of_push(visited: Seq<&DomainName>, target: &DomainName)
    ensures
        keys_of(visited.push(target)) == keys_of(visited).insert(target@.key()),
{
    let longer = visited.push(target);
    assert(longer[visited.len() as int] == target);
    assert forall|key: Seq<Seq<u8>>| keys_of(visited).insert(target@.key()).contains(
        key,
    ) implies keys_of(longer).contains(key) by {
        if key == target@.key() {
            assert(longer[visited.len() as int]@.key() == key);
        } else {
            let i = choose|i: int| 0 <= i < visited.len() && (#[trigger] visited[i])@.key() == key;
            assert(longer[i]@.key() == key);
        }
    }
    assert(keys_of(longer) =~= keys_of(visited).insert(target@.key()));
}

impl<'a> ChaseState<'a> {
    /// The state in which the walk for `query` begins: the records are to be
    /// read for `query`, and no alias has been followed.
    pub fn start(query: &'a DomainName) -> (state: ChaseState<'a>)
        ensures
            state@ == StateView::start(query@),
            state@.well_formed(),
    {
        let visited: Vec<&'a DomainName> = Vec::new();
        assert(keys_of(visited@) =~= Set::empty());
        ChaseState::Scanning { target: query, visited }
    }

    /// Makes one pass over all records. The walk fails where it has left the
    /// current name before, where the name has no address and no alias, and
    /// where an alias of the name comes after an address of it. It arrives
    /// where the name has addresses and no alias. Else the name's first alias
    /// leads to the next name, for which the records are to be read anew. A
    /// walk that has ended stays as it is.
    pub fn advance(self, records: &'a Vec<AnswerRecord>) -> (next: ChaseState<'a>)
        ensures
            next@ == step(records.deep_view(), self@),
            self@.well_formed() ==> next@.well_formed(),
    {
        match self {
            ChaseState::Scanning { target, visited } => {
                if has_left(&visited, target) {
                    return ChaseState::Failed(ChaseFailure::Loop);
                }
                match scan(records, target) {
                    PassEnd::Finished(found) => {
                        if found.len() > 0 {
                            ChaseState::Resolved(found)
                        } else {
                            ChaseState::Failed(ChaseFailure::NoAddress)
                        }
                    },
                    PassEnd::Conflict => ChaseState::Failed(ChaseFailure::Conflict),
                    PassEnd::Follow { at: _, next } => {
                        proof {
                            lemma_keys_of_push(visited@, target);
                        }
                        let mut visited = visited;
                        visited.push(target);
                        ChaseState::Scanning { target: next, visited }
                    },
                }
            },
            ended => ended,
        }
    }
}

/// Walks the answer records from `query`: in each pass over all records the
/// addresses of the current name are collected; the name's first alias, if no
/// address of the name comes before it, leads to the next name and a new pass.
/// The walk ends with the addresses of the name that it arrives at, and fails
/// when there are none, when an alias of a name comes after an address of it,
/// or when an alias leads back to a name that the walk has left.
pub fn chase(records: &Vec<AnswerRecord>, query: &DomainName) -> (end: Result<
    Vec<Ipv4Address>,
    ChaseFailure,
>)
    ensures
        match chase_result(records.deep_view(), query@) {
            Ok(found) => end matches Ok(addresses) && addresses@ == found,
            Err(failure) => end matches Err(reason) && reason == failure,
        },
        end matches Ok(addresses) ==> addresses.len() > 0,
{
    let ghost all = records.deep_view();
    let mut state = ChaseState::start(query);
    loop
        invariant
            all == records.deep_view(),
            state@.well_formed(),
            settle(all, state@) == chase_result(all, query@),
        decreases passes_left(all, state@),
    {
        match state {
            ChaseState::Resolved(found) => {
                return Ok(found);
            },
            ChaseState::Failed(reason) => {
                return Err(reason);
            },
            scanning => {
                proof {
                    lemma_step_shrinks(all, scanning@);
                }
                state = scanning.advance(records);
            },
        }
    }
}

/// A walk that succeeds gives at least one address, whatever the records are
/// and wherever the walk stands.
pub proof fn lemma_success_has_address(records: Seq<RecordView>, state: StateView)
    requires
        state.well_formed(),
    ensures
        settle(records, state) matches Ok(found) ==> found.len() > 0,
    decreases passes_left(records, state),
{
    if state is Scanning {
        lemma_step_shrinks(records, state);
        lemma_success_has_address(records, step(records, state));
    }
}

/// An address of an owner among the records makes the list of the owner's
/// addresses non-empty.
pub proof fn lemma_address_is_listed(records: Seq<RecordView>, key: Seq<Seq<u8>>, i: int)
    requires
        0 <= i < records.len(),
        records[i].is_address_of(key),
    ensures
        addresses_of(records, key).len() > 0,
    decreases records.len(),
{
    if i < records.len() - 1 {
        lemma_address_is_listed(records.drop_last(), key, i);
    }
}

/// Where two names are each other's alias, the walk fails from either of
/// them, whatever other records there are: record `i` is the first alias of
/// `start` and leads to a second name, and record `j` is the first alias of
/// that name and leads back to `start`. The walk then ends in a conflict or in
/// a loop, never for want of an address.
pub proof fn lemma_alias_cycle_fails(
    records: Seq<RecordView>,
    start: NameView,
    visited: Set<Seq<Seq<u8>>>,
    i: int,
    j: int,
)
    requires
        is_first_alias(records, start.key(), i),
        is_first_alias(records, records[i]->target.key(), j),
        records[j]->target.key() == start.key(),
    ensures
        settle(records, StateView::Scanning { target: start, visited }) matches Err(reason)
            && reason != ChaseFailure::NoAddress,
{
    let second = records[i]->target;
    let back = records[j]->target;
    lemma_first_alias_is(records, start.key(), i);
    lemma_first_alias_is(records, second.key(), j);
    reveal_with_fuel(settle, 5);
    let once = visited.insert(start.key());
    let twice = once.insert(second.key());
    assert(twice.contains(back.key()));
}

/// Where an address of a name comes before the first alias of the same name,
/// the walk fails from that name, wherever the alias leads: record `i` is an
/// address of `target`, and record `j`, after it, is the first alias of
/// `target`. The walk ends in a conflict, unless it has left `target` before.
pub proof fn lemma_address_before_alias_fails(
    records: Seq<RecordView>,
    target: NameView,
    visited: Set<Seq<Seq<u8>>>,
    i: int,
    j: int,
)
    requires
        0 <= i < j,
        records[i].is_address_of(target.key()),
        is_first_alias(records, target.key(), j),
    ensures
        settle(records, StateView::Scanning { target, visited }) == Err::<
            Seq<Ipv4Address>,
            ChaseFailure,
        >(
            if visited.contains(target.key()) {
                ChaseFailure::Loop
            } else {
                ChaseFailure::Conflict
            },
        ),
{
    lemma_first_alias_is(records, target.key(), j);
    assert(records.take(j)[i] == records[i]);
    lemma_address_is_listed(records.take(j), target.key(), i);
    reveal_with_fuel(settle, 2);
}

} // verus!
