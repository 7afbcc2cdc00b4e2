use vstd::prelude::*;

use crate::client::{BlockHash, ClientView};
use crate::pallet::{lookup, AccountId, DispatchError, Error, EventView, Origin, RegistryView};
use crate::rpc::{query_text, QueryError};

verus! {

/// A signed write of a non-empty name within the bound succeeds, and a read
/// of that account afterwards gives exactly that name.
pub proof fn lemma_set_then_get(p: RegistryView, who: AccountId, name: Seq<u8>)
    requires
        0 < name.len() <= p.bound,
    ensures
        p.set_step(Origin::Signed(who), name).0 == Ok::<(), DispatchError>(()),
        lookup(p.set_step(Origin::Signed(who), name).1.names, who) == Some(name),
{
}

/// A write of an empty name fails with `UsernameEmpty` and leaves the
/// registry, its names and its events, as it was.
pub proof fn lemma_empty_name_refused(p: RegistryView, who: AccountId, name: Seq<u8>)
    requires
        name.len() == 0,
    ensures
        p.set_step(Origin::Signed(who), name) == (
            Err::<(), DispatchError>(DispatchError::Module(Error::UsernameEmpty)),
            p,
        ),
{
}

/// A write of a name longer than the bound fails with `UsernameTooLong` and
/// leaves the registry, its names and its events, as it was.
pub proof fn lemma_long_name_refused(p: RegistryView, who: AccountId, name: Seq<u8>)
    requires
        name.len() > p.bound,
    ensures
        p.set_step(Origin::Signed(who), name) == (
            Err::<(), DispatchError>(DispatchError::Module(Error::UsernameTooLong)),
            p,
        ),
{
}

/// Two valid writes for one account leave the second name in place. The
/// first deposits a creation event when the account had no name, an update
/// event otherwise; the second always deposits an update event, so one
/// account never gets two creation events in a row.
pub proof fn lemma_overwrite(p: RegistryView, who: AccountId, first: Seq<u8>, second: Seq<u8>)
    requires
        0 < first.len() <= p.bound,
        0 < second.len() <= p.bound,
    ensures
        ({
            let (r1, p1) = p.set_step(Origin::Signed(who), first);
            let (r2, p2) = p1.set_step(Origin::Signed(who), second);
            &&& r1 == Ok::<(), DispatchError>(())
            &&& r2 == Ok::<(), DispatchError>(())
            &&& lookup(p2.names, who) == Some(second)
            &&& !p.names.contains_key(who) ==> p1.events == p.events.push(
                EventView::Created { who, name: first },
            )
            &&& p.names.contains_key(who) ==> p1.events == p.events.push(
                EventView::Updated { who, name: first },
            )
            &&& p2.events == p1.events.push(EventView::Updated { who, name: second })
        }),
{
}

/// A read of an account that the chosen snapshot holds no name for gives
/// no name, and no error.
pub proof fn lemma_query_unwritten(c: ClientView, who: AccountId, at: Option<BlockHash>)
    requires
        c.state_at(at) is Some,
        !c.state_at(at)->Some_0.contains_key(who),
    ensures
        query_text(c, who, at) == Ok::<Option<Seq<char>>, QueryError>(None),
{
}

} // verus!
