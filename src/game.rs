use vstd::prelude::*;

verus! {

/// What every connection of the game shares: the game store, the schedule
/// of game starts, and the start-signal bus.
#[derive(Clone, Debug)]
pub struct GameController<GD, JS, GSN> {
    db: GD,
    schedular: JS,
    notifier: GSN,
}

impl<GD, JS, GSN> GameController<GD, JS, GSN> {
    pub closed spec fn db_spec(&self) -> GD {
        self.db
    }

    pub closed spec fn schedular_spec(&self) -> JS {
        self.schedular
    }

    pub closed spec fn notifier_spec(&self) -> GSN {
        self.notifier
    }

    pub fn new(db: GD, schedular: JS, notifier: GSN) -> (r: Self)
        ensures
            r.db_spec() == db,
            r.schedular_spec() == schedular,
            r.notifier_spec() == notifier,
    {
        GameController { db, schedular, notifier }
    }

    pub fn db(&self) -> (r: &GD)
        ensures
            *r == self.db_spec(),
    {
        &self.db
    }

    pub fn schedular(&self) -> (r: &JS)
        ensures
            *r == self.schedular_spec(),
    {
        &self.schedular
    }

    pub fn notifier(&self) -> (r: &GSN)
        ensures
            *r == self.notifier_spec(),
    {
        &self.notifier
    }
}

} // verus!
