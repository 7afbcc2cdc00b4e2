use std::collections::HashMap;
use vstd::prelude::*;

verus! {

/// Identifies the owner of a registry entry.
pub type AccountId = u64;

/// Why a name was refused.
#[derive(Debug, Clone, Copy, PartialEq, Eq, Structural)]
pub enum Error {
    /// The name is longer than the configured maximum.
    UsernameTooLong,
    /// The name holds no bytes.
    UsernameEmpty,
}

/// Why a call into the registry failed.
#[derive(Debug, Clone, Copy, PartialEq, Eq, Structural)]
pub enum DispatchError {
    /// The call did not come from a signed account.
    BadOrigin,
    /// The registry refused the call.
    Module(Error),
}

/// Who a call comes from, as the surrounding pipeline authenticated it.
#[derive(Debug, Clone, Copy, PartialEq, Eq, Structural)]
pub enum Origin {
    /// The privileged root origin.
    Root,
    /// An account whose signature was checked.
    Signed(AccountId),
    /// A call that carries no signature.
    Unsigned,
}

/// Notification deposited after each successful write.
#[derive(Debug, PartialEq, Eq)]
pub enum Event {
    /// A name was stored for an account that had none.
    UsernameSet { who: AccountId, username: Vec<u8> },
    /// The name of an account that already had one was replaced.
    UsernameUpdated { who: AccountId, username: Vec<u8> },
}

/// The mathematical value of an [`Event`].
pub enum EventView {
    Created { who: AccountId, name: Seq<u8> },
    Updated { who: AccountId, name: Seq<u8> },
}

impl View for Event {
    type V = EventView;

    open spec fn view(&self) -> EventView {
        match self {
            Event::UsernameSet { who, username } => EventView::Created { who: *who, name: username@ },
            Event::UsernameUpdated { who, username } => EventView::Updated {
                who: *who,
                name: username@,
            },
        }
    }
}

/// The mathematical value of a [`Pallet`]: its bound, its names and the
/// events deposited so far, oldest first.
pub struct RegistryView {
    pub bound: nat,
    pub names: Map<AccountId, Seq<u8>>,
    pub events: Seq<EventView>,
}

/// What a write of `name` under the bound `bound` gives: emptiness is checked
/// first, then the length.
pub open spec fn name_check(name: Seq<u8>, bound: nat) -> Result<(), Error> {
    if name.len() == 0 {
        Err(Error::UsernameEmpty)
    } else if name.len() > bound {
        Err(Error::UsernameTooLong)
    } else {
        Ok(())
    }
}

/// The name stored for `who` in `names`, if any.
pub open spec fn lookup(names: Map<AccountId, Seq<u8>>, who: AccountId) -> Option<Seq<u8>> {
    if names.contains_key(who) {
        Some(names[who])
    } else {
        None
    }
}

impl RegistryView {
    /// Every stored name is non-empty and within the bound, and the bound
    /// fits in a `u32`.
    pub open spec fn wf(self) -> bool {
        &&& self.bound <= u32::MAX
        &&& forall|a: AccountId| #[trigger]
            self.names.contains_key(a) ==> 0 < self.names[a].len() <= self.bound
    }

    /// The event that a successful write of `name` for `who` deposits.
    pub open spec fn write_event(self, who: AccountId, name: Seq<u8>) -> EventView {
        if self.names.contains_key(who) {
            EventView::Updated { who, name }
        } else {
            EventView::Created { who, name }
        }
    }

    /// The registry after a successful write of `name` for `who`.
    pub open spec fn write(self, who: AccountId, name: Seq<u8>) -> RegistryView {
        RegistryView {
            bound: self.bound,
            names: self.names.insert(who, name),
            events: self.events.push(self.write_event(who, name)),
        }
    }

    /// The result of a call to set `name` from `origin`, and the registry
    /// after it: a refused call leaves the registry as it was.
    pub open spec fn set_step(self, origin: Origin, name: Seq<u8>) -> (
        Result<(), DispatchError>,
        RegistryView,
    ) {
        match origin {
            Origin::Signed(who) => match name_check(name, self.bound) {
                Ok(()) => (Ok(()), self.write(who, name)),
                Err(e) => (Err(DispatchError::Module(e)), self),
            },
            _ => (Err(DispatchError::BadOrigin), self),
        }
    }
}

/// The account that signed `origin`, or `BadOrigin`.
pub fn ensure_signed(origin: Origin) -> (r: Result<AccountId, DispatchError>)
    ensures
        match origin {
            Origin::Signed(who) => r == Ok::<AccountId, DispatchError>(who),
            _ => r == Err::<AccountId, DispatchError>(DispatchError::BadOrigin),
        },
{
    match origin {
        Origin::Signed(who) => Ok(who),
        _ => Err(DispatchError::BadOrigin),
    }
}

/// Checks `name` against the bound, in the order that `name_check` gives.
fn validate_username(name: &Vec<u8>, bound: u32) -> (r: Result<(), Error>)
    ensures
        r == name_check(name@, bound as nat),
{
    if name.len() == 0 {
        Err(Error::UsernameEmpty)
    } else if name.len() > bound as usize {
        Err(Error::UsernameTooLong)
    } else {
        Ok(())
    }
}

/// Turns `name` into a value fit for storage. This guards the bound on its
/// own, so that it still holds should the check before it ever be dropped.
fn into_bounded(name: Vec<u8>, bound: u32) -> (r: Result<Vec<u8>, Error>)
    ensures
        name@.len() <= bound ==> r == Ok::<Vec<u8>, Error>(name),
        name@.len() > bound ==> r == Err::<Vec<u8>, Error>(Error::UsernameTooLong),
{
    if name.len() <= bound as usize {
        Ok(name)
    } else {
        Err(Error::UsernameTooLong)
    }
}

/// The registry: a map from account to name under a fixed bound, and the
/// log of events that its writes deposited.
pub struct Pallet {
    max_username_length: u32,
    usernames: HashMap<AccountId, Vec<u8>>,
    events: Vec<Event>,
}

impl View for Pallet {
    type V = RegistryView;

    closed spec fn view(&self) -> RegistryView {
        RegistryView {
            bound: self.max_username_length as nat,
            names: self.usernames@.map_values(|v: Vec<u8>| v@),
            events: self.events@.map_values(|e: Event| e@),
        }
    }
}

impl Pallet {
    /// The registry invariant: no stored name is empty or over the bound.
    pub open spec fn wf(&self) -> bool {
        self@.wf()
    }

    /// The value of an empty registry under the given bound.
    pub open spec fn new_view(max_username_length: u32) -> RegistryView {
        RegistryView {
            bound: max_username_length as nat,
            names: Map::empty(),
            events: Seq::empty(),
        }
    }

    /// An empty registry whose names may hold up to `max_username_length`
    /// bytes.
    pub fn new(max_username_length: u32) -> (p: Pallet)
        ensures
            p.wf(),
            p@ == Pallet::new_view(max_username_length),
    {
        let p = Pallet { max_username_length, usernames: HashMap::new(), events: Vec::new() };
        assert(p@.names =~= Map::<AccountId, Seq<u8>>::empty());
        assert(p@.events =~= Seq::<EventView>::empty());
        p
    }

    /// The configured maximum length of a name.
    pub fn max_username_length(&self) -> (r: u32)
        ensures
            r as nat == self@.bound,
    {
        self.max_username_length
    }

    /// The name stored for `account_id`, if one was ever written.
    pub fn usernames(&self, account_id: AccountId) -> (r: Option<Vec<u8>>)
        ensures
            match r {
                Some(v) => lookup(self@.names, account_id) == Some(v@),
                None => lookup(self@.names, account_id) == None::<Seq<u8>>,
            },
    {
        match self.usernames.get(&account_id) {
            Some(v) => {
                let c = v.clone();
                assert(c@ =~= v@);
                Some(c)
            },
            None => None,
        }
    }

    /// The events deposited so far, oldest first.
    pub fn events(&self) -> (r: &Vec<Event>)
        ensures
            r@.map_values(|e: Event| e@) == self@.events,
    {
        &self.events
    }

    /// Sets the name of the account that signed `origin` to `username`.
    ///
    /// The name must be non-empty and at most the bound long; on success it
    /// replaces any earlier one, and one event is deposited: `UsernameSet`
    /// for an account that had no name, `UsernameUpdated` otherwise. A
    /// refused call changes nothing and deposits nothing.
    pub fn set_username(&mut self, origin: Origin, username: Vec<u8>) -> (r: Result<
        (),
        DispatchError,
    >)
        requires
            old(self).wf(),
        ensures
            final(self).wf(),
            (r, final(self)@) == old(self)@.set_step(origin, username@),
    {
        let who = match ensure_signed(origin) {
            Ok(who) => who,
            Err(e) => return Err(e),
        };
        match validate_username(&username, self.max_username_length) {
            Ok(()) => {},
            Err(e) => return Err(DispatchError::Module(e)),
        }
        let bounded = match into_bounded(username, self.max_username_length) {
            Ok(b) => b,
            Err(e) => return Err(DispatchError::Module(e)),
        };
        let ghost before = self@;
        let exists = self.usernames.contains_key(&who);
        let stored = bounded.clone();
        assert(stored@ =~= bounded@);
        self.usernames.insert(who, stored);
        if exists {
            self.events.push(Event::UsernameUpdated { who, username: bounded });
        } else {
            self.events.push(Event::UsernameSet { who, username: bounded });
        }
        assert(self@.names =~= before.write(who, bounded@).names);
        assert(self@.events =~= before.write(who, bounded@).events);
        Ok(())
    }

    /// A copy of the names and the bound, with an empty event log: the state
    /// that a snapshot keeps.
    pub fn snapshot(&self) -> (r: Pallet)
        ensures
            r@.bound == self@.bound,
            r@.names == self@.names,
            r@.events == Seq::<EventView>::empty(),
    {
        let r = Pallet {
            max_username_length: self.max_username_length,
            usernames: self.usernames.clone(),
            events: Vec::new(),
        };
        assert(r@.events =~= Seq::<EventView>::empty());
        r
    }
}

} // verus!
