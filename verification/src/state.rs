//! The persistent store: a singleton configuration record, a singleton
//! monotonic counter, and the collection of box records keyed by identifier.
//!
//! Box identifiers are minted as `previous counter value + 1` and are never
//! reused, so the live identifiers are exactly `1 ..= counter`. The store
//! exploits that: record `id` lives at position `id - 1` of a dense vector,
//! and [`Store::save_box`] accepts exactly the identifiers that keep the
//! collection dense.

use vstd::prelude::*;

use crate::error::{ContractError, ContractErrorV};

verus! {

/// The singleton configuration, created once at initialization and immutable
/// thereafter. `owner` is recorded for observability only: no operation is
/// gated on it.
#[derive(Debug, PartialEq, Eq)]
pub struct State {
    pub owner: String,
    pub denom: String,
}

/// Mathematical image of a [`State`].
#[verifier::ext_equal]
pub ghost struct StateV {
    pub owner: Seq<char>,
    pub denom: Seq<char>,
}

impl View for State {
    type V = StateV;

    open spec fn view(&self) -> StateV {
        StateV { owner: self.owner@, denom: self.denom@ }
    }
}

impl Clone for State {
    fn clone(&self) -> (r: Self)
        ensures
            r@ == self@,
    {
        State { owner: self.owner.clone(), denom: self.denom.clone() }
    }
}

/// Whether a box has been opened, and if so by whom. A box starts
/// [`Opener::Unopened`]; a successful open records the caller.
#[derive(Debug, PartialEq, Eq)]
pub enum Opener {
    Unopened,
    Opened { by: String },
}

/// Mathematical image of an [`Opener`].
#[verifier::ext_equal]
pub ghost enum OpenerV {
    Unopened,
    Opened { by: Seq<char> },
}

impl View for Opener {
    type V = OpenerV;

    open spec fn view(&self) -> OpenerV {
        match self {
            Opener::Unopened => OpenerV::Unopened,
            Opener::Opened { by } => OpenerV::Opened { by: by@ },
        }
    }
}

impl Clone for Opener {
    fn clone(&self) -> (r: Self)
        ensures
            r@ == self@,
    {
        match self {
            Opener::Unopened => Opener::Unopened,
            Opener::Opened { by } => Opener::Opened { by: by.clone() },
        }
    }
}

/// One escrow box: a fixed amount of the configured asset locked behind the
/// lowercase hexadecimal SHA-256 digest of a secret. `funds` and
/// `hashed_password` never change after creation; `opener` is the only field
/// a later operation rewrites.
#[derive(Debug, PartialEq, Eq)]
pub struct FundsBox {
    pub creator: String,
    pub funds: u128,
    pub hashed_password: String,
    pub opener: Opener,
}

/// Mathematical image of a [`FundsBox`].
#[verifier::ext_equal]
pub ghost struct BoxV {
    pub creator: Seq<char>,
    pub funds: u128,
    pub hashed_password: Seq<char>,
    pub opener: OpenerV,
}

impl View for FundsBox {
    type V = BoxV;

    open spec fn view(&self) -> BoxV {
        BoxV {
            creator: self.creator@,
            funds: self.funds,
            hashed_password: self.hashed_password@,
            opener: self.opener@,
        }
    }
}

impl Clone for FundsBox {
    fn clone(&self) -> (r: Self)
        ensures
            r@ == self@,
    {
        FundsBox {
            creator: self.creator.clone(),
            funds: self.funds,
            hashed_password: self.hashed_password.clone(),
            opener: self.opener.clone(),
        }
    }
}

/// Mathematical image of a whole [`Store`]: the three durable records.
#[verifier::ext_equal]
pub ghost struct StoreV {
    pub config: Option<StateV>,
    pub counter: Option<u64>,
    pub boxes: Seq<BoxV>,
}

/// The durable state of one instance. Each method is atomic from the caller's
/// perspective; under the single-writer execution model of the host there is
/// no interleaving to guard against.
pub struct Store {
    config: Option<State>,
    counter: Option<u64>,
    boxes: Vec<FundsBox>,
}

impl View for Store {
    type V = StoreV;

    closed spec fn view(&self) -> StoreV {
        StoreV {
            config: match self.config {
                Some(s) => Some(s@),
                None => None,
            },
            counter: self.counter,
            boxes: self.boxes@.map_values(|b: FundsBox| b@),
        }
    }
}

impl Store {
    /// A store holds no record at all before initialization.
    pub open spec fn is_fresh(self) -> bool {
        &&& self@.config is None
        &&& self@.counter is None
        &&& self@.boxes.len() == 0
    }

    /// The shape every reachable store has: configuration and counter are
    /// created together, and the counter equals the number of boxes minted,
    /// so the live identifiers are exactly `1 ..= counter`.
    pub open spec fn well_formed(self) -> bool {
        &&& self@.config is Some <==> self@.counter is Some
        &&& match self@.counter {
            Some(c) => c == self@.boxes.len(),
            None => self@.boxes.len() == 0,
        }
    }

    /// An empty store, as an instance finds it before initialization.
    pub fn new() -> (s: Store)
        ensures
            s.is_fresh(),
    {
        Store { config: None, counter: None, boxes: Vec::new() }
    }

    /// Read the singleton configuration.
    pub fn load_config(&self) -> (r: Result<State, ContractError>)
        ensures
            match self@.config {
                Some(c) => r matches Ok(s) && s@ == c,
                None => r matches Err(e) && e@ == ContractErrorV::NotInitialized,
            },
    {
        match &self.config {
            Some(s) => Ok(s.clone()),
            None => Err(ContractError::NotInitialized),
        }
    }

    /// Overwrite the singleton configuration.
    pub fn save_config(&mut self, s: State)
        ensures
            final(self)@ == (StoreV { config: Some(s@), ..old(self)@ }),
    {
        self.config = Some(s);
    }

    /// Read the singleton counter.
    pub fn load_counter(&self) -> (r: Result<u64, ContractError>)
        ensures
            match self@.counter {
                Some(c) => r matches Ok(v) && v == c,
                None => r matches Err(e) && e@ == ContractErrorV::NotInitialized,
            },
    {
        match self.counter {
            Some(c) => Ok(c),
            None => Err(ContractError::NotInitialized),
        }
    }

    /// Overwrite the singleton counter.
    pub fn save_counter(&mut self, c: u64)
        ensures
            final(self)@ == (StoreV { counter: Some(c), ..old(self)@ }),
    {
        self.counter = Some(c);
    }

    /// Atomically read the counter, persist its successor, and return the new
    /// value. Fails if the counter does not exist yet.
    pub fn increment_counter(&mut self) -> (r: Result<u64, ContractError>)
        requires
            old(self)@.counter matches Some(c) ==> c < u64::MAX,
        ensures
            match old(self)@.counter {
                Some(c) => {
                    &&& r matches Ok(v) && v == c + 1
                    &&& final(self)@ == (StoreV { counter: Some((c + 1) as u64), ..old(self)@ })
                },
                None => {
                    &&& r matches Err(e) && e@ == ContractErrorV::NotInitialized
                    &&& final(self)@ == old(self)@
                },
            },
    {
        match self.counter {
            Some(c) => {
                let next = c + 1;
                self.counter = Some(next);
                Ok(next)
            },
            None => Err(ContractError::NotInitialized),
        }
    }

    /// Read the box record stored under `id`.
    pub fn load_box(&self, id: u64) -> (r: Result<FundsBox, ContractError>)
        ensures
            if 1 <= id && id <= self@.boxes.len() {
                r matches Ok(b) && b@ == self@.boxes[id - 1]
            } else {
                r matches Err(e) && e@ == ContractErrorV::BoxNotFound
            },
    {
        if 1 <= id && id <= self.boxes.len() as u64 {
            let i: usize = (id - 1) as usize;
            Ok(self.boxes[i].clone())
        } else {
            Err(ContractError::BoxNotFound)
        }
    }

    /// Create or overwrite the box record under `id`. Identifiers are minted
    /// densely, so the only identifiers ever written are `1 ..= counter + 1`;
    /// the store requires exactly that.
    pub fn save_box(&mut self, id: u64, b: FundsBox)
        requires
            1 <= id,
            id <= old(self)@.boxes.len() + 1,
        ensures
            final(self)@ == (StoreV {
                boxes: if id <= old(self)@.boxes.len() {
                    old(self)@.boxes.update(id - 1, b@)
                } else {
                    old(self)@.boxes.push(b@)
                },
                ..old(self)@
            }),
    {
        let ghost pre = self@;
        if id <= self.boxes.len() as u64 {
            let i: usize = (id - 1) as usize;
            self.boxes.set(i, b);
            proof {
                assert(self@.boxes =~= pre.boxes.update(id - 1, b@));
                assert(self@ =~= (StoreV { boxes: pre.boxes.update(id - 1, b@), ..pre }));
            }
        } else {
            self.boxes.push(b);
            proof {
                assert(self@.boxes =~= pre.boxes.push(b@));
                assert(self@ =~= (StoreV { boxes: pre.boxes.push(b@), ..pre }));
            }
        }
    }
}

} // verus!
