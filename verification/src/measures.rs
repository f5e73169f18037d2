use rand::Rng;
use vstd::prelude::*;
use crate::interface::{Measure, MeasureCreate};

verus! {

/// The least number of characters in a measure's name.
pub const MIN_NAME_CHARS: usize = 2;

/// Which of a measure's fields break the rules: a name of fewer than two characters,
/// a weight below zero. `validate_measure` sets at least one of them.
#[derive(Debug, Clone, Copy, PartialEq, Eq, Structural)]
pub struct MeasureInvalid {
    pub name_too_short: bool,
    pub grams_below_zero: bool,
}

impl MeasureInvalid {
    /// The message shown for a name that is too short.
    pub fn name_message() -> (r: &'static str)
        ensures
            r@ == "Name must be at least 2 characters long."@,
    {
        "Name must be at least 2 characters long."
    }
}

/// The rules every saved measure obeys: its name has at least two characters (counted
/// as characters, not bytes) and its weight is not below zero. `grams_below_zero` is the
/// outcome of comparing the weight with zero, which is done on the float itself.
pub fn validate_measure(name: &str, grams_below_zero: bool) -> (r: Result<(), MeasureInvalid>)
    ensures
        r is Ok <==> (name@.len() >= 2 && !grams_below_zero),
        r matches Err(e) ==> e.name_too_short == (name@.len() < 2) && e.grams_below_zero
            == grams_below_zero,
{
    let name_too_short = name.unicode_len() < MIN_NAME_CHARS;
    if name_too_short || grams_below_zero {
        Err(MeasureInvalid { name_too_short, grams_below_zero })
    } else {
        Ok(())
    }
}

/// An update of a stored measure: the name and the weight are replaced by those sent,
/// while the id and the plural name are kept.
pub fn apply_update(item: Measure, params: MeasureCreate) -> (r: Measure)
    ensures
        r.id == item.id,
        r.name == params.name,
        r.name_plural == item.name_plural,
        r.grams_bits == params.grams_bits,
{
    Measure { id: item.id, name: params.name, name_plural: item.name_plural, grams_bits: params.grams_bits }
}

/// The unit word for a converted amount: the plural name when the amount is more than
/// one, the singular name otherwise.
pub fn unit_label(measure: &Measure, more_than_one: bool) -> (r: String)
    ensures
        more_than_one ==> r == measure.name_plural,
        !more_than_one ==> r == measure.name,
{
    if more_than_one {
        measure.name_plural.clone()
    } else {
        measure.name.clone()
    }
}

/// Why the database did not do what was asked.
#[derive(Debug, Clone, Copy, PartialEq, Eq, Structural)]
pub enum DbError {
    /// The save was refused before it reached the table: the measure breaks the rules of
    /// `validate_measure`, which run before every save.
    Rejected(MeasureInvalid),
    /// The query failed.
    Failed,
}

/// Why a model operation failed.
#[derive(Debug, Clone, Copy, PartialEq, Eq, Structural)]
pub enum ModelError {
    /// A measure of that name exists already.
    EntityAlreadyExists,
    /// No measure was found.
    EntityNotFound,
    /// The database refused or failed.
    DbErr(DbError),
}

/// A save of an edited measure: the rules run before it, as before every save. When
/// the name sent and the weight sent keep them, the measure to store is `item` with the
/// name and the weight replaced (`apply_update`); otherwise the save is refused.
pub fn validated_update(item: Measure, params: MeasureCreate, grams_below_zero: bool) -> (r: Result<
    Measure,
    DbError,
>)
    ensures
        (params.name@.len() >= 2 && !grams_below_zero) ==> {
            &&& r matches Ok(m)
            &&& m.id == item.id
            &&& m.name == params.name
            &&& m.name_plural == item.name_plural
            &&& m.grams_bits == params.grams_bits
        },
        !(params.name@.len() >= 2 && !grams_below_zero) ==> r == Err::<Measure, DbError>(
            DbError::Rejected(
                MeasureInvalid {
                    name_too_short: params.name@.len() < 2,
                    grams_below_zero: grams_below_zero,
                },
            ),
        ),
{
    match validate_measure(params.name.as_str(), grams_below_zero) {
        Ok(()) => Ok(apply_update(item, params)),
        Err(e) => Err(DbError::Rejected(e)),
    }
}

/// The answer to a lookup of one measure (by name, or at a random position): the
/// measure found, or `EntityNotFound`.
pub fn measure_found(found: Option<Measure>) -> (r: Result<Measure, ModelError>)
    ensures
        match found {
            Some(m) => r == Ok::<Measure, ModelError>(m),
            None => r == Err::<Measure, ModelError>(ModelError::EntityNotFound),
        },
{
    match found {
        Some(m) => Ok(m),
        None => Err(ModelError::EntityNotFound),
    }
}

/// A uniformly drawn number below `bound`.
///
/// Calls `rand::thread_rng()` and `rand::Rng::gen_range` on `0..bound`. Trusted: the
/// result lies in the range. `gen_range` panics on an empty range, hence `bound > 0`.
/// Which number comes out depends on chance and is not stated.
#[verifier::external_body]
fn random_below(bound: u64) -> (r: u64)
    requires
        bound > 0,
    ensures
        r < bound,
{
    rand::thread_rng().gen_range(0..bound)
}

/// Where picking a random measure stands.
pub enum FindRandomState {
    /// Waiting for the number of stored measures.
    Counting,
    /// Waiting for the measure at the drawn position.
    Fetching,
    /// The answer has been given.
    Done,
}

/// What the database answered while picking a random measure.
pub enum FindRandomEvent {
    /// The number of stored measures.
    Counted(u64),
    /// The measure at the requested position, if there is one.
    Fetched(Option<Measure>),
    /// The query failed.
    Failed,
}

/// What the caller does next while picking a random measure.
pub enum FindRandomAction {
    /// Count the stored measures.
    CountRows,
    /// Fetch the measure at this position (skip that many, take one).
    FetchAt(u64),
    /// Answer with this result.
    Finish(Result<Measure, ModelError>),
}

impl FindRandomState {
    /// Whether `event` answers what this state waits for. An empty table cannot be
    /// picked from (drawing from an empty range fails), so a count of zero is not accepted.
    pub open spec fn accepts(&self, event: &FindRandomEvent) -> bool {
        match (*self, *event) {
            (FindRandomState::Counting, FindRandomEvent::Counted(n)) => n > 0,
            (FindRandomState::Counting, FindRandomEvent::Failed) => true,
            (FindRandomState::Fetching, FindRandomEvent::Fetched(_)) => true,
            (FindRandomState::Fetching, FindRandomEvent::Failed) => true,
            _ => false,
        }
    }

    /// Picking starts by counting the measures.
    pub fn begin() -> (r: (FindRandomState, FindRandomAction))
        ensures
            r.0 is Counting,
            r.1 is CountRows,
    {
        (FindRandomState::Counting, FindRandomAction::CountRows)
    }

    /// The step after a count of `count` measures once a position has been drawn: the
    /// measure at exactly that position is fetched. Every position below the count can
    /// be fetched this way, and no other.
    pub fn after_draw(count: u64, drawn: u64) -> (r: (FindRandomState, FindRandomAction))
        requires
            drawn < count,
        ensures
            r.0 is Fetching,
            r.1 == FindRandomAction::FetchAt(drawn),
    {
        (FindRandomState::Fetching, FindRandomAction::FetchAt(drawn))
    }

    /// One step: after the count, a position below it is drawn at random and fetched;
    /// the fetched measure is the answer, or `EntityNotFound` when there is none; a
    /// failed query answers `DbErr(Failed)`.
    pub fn step(self, event: FindRandomEvent) -> (r: (FindRandomState, FindRandomAction))
        requires
            self.accepts(&event),
        ensures
            match (self, event) {
                (FindRandomState::Counting, FindRandomEvent::Counted(n)) => {
                    &&& r.0 is Fetching
                    &&& r.1 matches FindRandomAction::FetchAt(offset)
                    &&& offset < n
                },
                (FindRandomState::Fetching, FindRandomEvent::Fetched(Some(m))) => r.0 is Done
                    && r.1 == FindRandomAction::Finish(Ok(m)),
                (FindRandomState::Fetching, FindRandomEvent::Fetched(None)) => r.0 is Done && r.1
                    == FindRandomAction::Finish(Err(ModelError::EntityNotFound)),
                _ => r.0 is Done && r.1 == FindRandomAction::Finish(
                    Err(ModelError::DbErr(DbError::Failed)),
                ),
            },
    {
        match event {
            FindRandomEvent::Counted(n) => {
                let drawn = random_below(n);
                FindRandomState::after_draw(n, drawn)
            },
            FindRandomEvent::Fetched(found) => (
                FindRandomState::Done,
                FindRandomAction::Finish(measure_found(found)),
            ),
            FindRandomEvent::Failed => (
                FindRandomState::Done,
                FindRandomAction::Finish(Err(ModelError::DbErr(DbError::Failed))),
            ),
        }
    }
}

/// Where creating a measure stands. The lookup, the insert and the commit run in one
/// transaction; leaving it early rolls it back.
pub enum CreateState {
    /// Waiting for the transaction to open.
    Beginning(MeasureCreate, bool),
    /// Waiting to learn whether a measure of that name exists (names are compared
    /// without regard to case by the database).
    LookingUp(MeasureCreate, bool),
    /// Waiting for the insert.
    Inserting,
    /// Waiting for the commit of the inserted measure.
    Committing(Measure),
    /// The answer has been given.
    Done,
}

/// What the database answered while creating a measure.
pub enum CreateEvent {
    /// The transaction is open.
    Began,
    /// Whether a measure of the requested name exists.
    LookedUp(bool),
    /// The inserted measure, as stored.
    Inserted(Measure),
    /// The transaction is committed.
    Committed,
    /// The database failed.
    Failed,
}

/// What the caller does next while creating a measure.
pub enum CreateAction {
    /// Open a transaction.
    BeginTransaction,
    /// Look for a measure of this name.
    LookUpName(String),
    /// Insert this measure.
    Insert(MeasureCreate),
    /// Commit the transaction.
    Commit,
    /// Answer with this result.
    Finish(Result<Measure, ModelError>),
}

impl CreateState {
    /// Whether `event` answers what this state waits for.
    pub open spec fn accepts(&self, event: &CreateEvent) -> bool {
        match (*self, *event) {
            (CreateState::Done, _) => false,
            (_, CreateEvent::Failed) => true,
            (CreateState::Beginning(..), CreateEvent::Began) => true,
            (CreateState::LookingUp(..), CreateEvent::LookedUp(_)) => true,
            (CreateState::Inserting, CreateEvent::Inserted(_)) => true,
            (CreateState::Committing(_), CreateEvent::Committed) => true,
            _ => false,
        }
    }

    /// Creating `params` starts by opening a transaction. `grams_below_zero` tells
    /// whether the weight sent is below zero.
    pub fn begin(params: MeasureCreate, grams_below_zero: bool) -> (r: (CreateState, CreateAction))
        ensures
            r.0 == CreateState::Beginning(params, grams_below_zero),
            r.1 is BeginTransaction,
    {
        (CreateState::Beginning(params, grams_below_zero), CreateAction::BeginTransaction)
    }

    /// One step. Once the transaction is open the name is looked up. A name that is
    /// taken answers `EntityAlreadyExists` and nothing is inserted. Otherwise the measure
    /// is checked against the rules before it is saved: one that breaks them is refused
    /// (`DbErr(Rejected(..))`) and not inserted; one that keeps them is inserted, the transaction
    /// committed, and the stored measure is the answer. A failure answers `DbErr(Failed)`.
    pub fn step(self, event: CreateEvent) -> (r: (CreateState, CreateAction))
        requires
            self.accepts(&event),
        ensures
            match (self, event) {
                (CreateState::Beginning(p, g), CreateEvent::Began) => {
                    &&& r.0 == CreateState::LookingUp(p, g)
                    &&& r.1 == CreateAction::LookUpName(p.name)
                },
                (CreateState::LookingUp(p, g), CreateEvent::LookedUp(true)) => {
                    &&& r.0 is Done
                    &&& r.1 == CreateAction::Finish(Err(ModelError::EntityAlreadyExists))
                },
                (CreateState::LookingUp(p, g), CreateEvent::LookedUp(false)) => if p.name@.len()
                    >= 2 && !g {
                    &&& r.0 is Inserting
                    &&& r.1 == CreateAction::Insert(p)
                } else {
                    &&& r.0 is Done
                    &&& r.1 == CreateAction::Finish(
                        Err(
                            ModelError::DbErr(
                                DbError::Rejected(
                                    MeasureInvalid {
                                        name_too_short: p.name@.len() < 2,
                                        grams_below_zero: g,
                                    },
                                ),
                            ),
                        ),
                    )
                },
                (CreateState::Inserting, CreateEvent::Inserted(m)) => {
                    &&& r.0 == CreateState::Committing(m)
                    &&& r.1 is Commit
                },
                (CreateState::Committing(m), CreateEvent::Committed) => {
                    &&& r.0 is Done
                    &&& r.1 == CreateAction::Finish(Ok(m))
                },
                _ => {
                    &&& r.0 is Done
                    &&& r.1 == CreateAction::Finish(Err(ModelError::DbErr(DbError::Failed)))
                },
            },
    {
        match (self, event) {
            (CreateState::Beginning(p, g), CreateEvent::Began) => {
                let name = p.name.clone();
                (CreateState::LookingUp(p, g), CreateAction::LookUpName(name))
            },
            (CreateState::LookingUp(p, g), CreateEvent::LookedUp(exists)) => {
                if exists {
                    (CreateState::Done, CreateAction::Finish(Err(ModelError::EntityAlreadyExists)))
                } else {
                    match validate_measure(p.name.as_str(), g) {
                        Ok(()) => (CreateState::Inserting, CreateAction::Insert(p)),
                        Err(e) => (CreateState::Done, CreateAction::Finish(Err(ModelError::DbErr(DbError::Rejected(e))))),
                    }
                }
            },
            (CreateState::Inserting, CreateEvent::Inserted(m)) => (
                CreateState::Committing(m),
                CreateAction::Commit,
            ),
            (CreateState::Committing(m), CreateEvent::Committed) => (
                CreateState::Done,
                CreateAction::Finish(Ok(m)),
            ),
            _ => (CreateState::Done, CreateAction::Finish(Err(ModelError::DbErr(DbError::Failed)))),
        }
    }
}

/// Why a request of a logged-in user failed.
#[derive(Debug, Clone, Copy, PartialEq, Eq, Structural)]
pub enum LoadError {
    /// The user of the token could not be loaded.
    User(ModelError),
    /// No measure has the requested id.
    NotFound,
    /// The database failed.
    DbErr,
}

/// The outcome of loading the user of the token, which every request of a logged-in
/// user does first: a user that cannot be loaded ends the request with that error.
pub fn require_user(checked: Result<(), ModelError>) -> (r: Result<(), LoadError>)
    ensures
        match checked {
            Ok(()) => r is Ok,
            Err(e) => r == Err::<(), LoadError>(LoadError::User(e)),
        },
{
    match checked {
        Ok(()) => Ok(()),
        Err(e) => Err(LoadError::User(e)),
    }
}

/// Where loading a measure by id stands: the user of the token is checked first.
pub enum LoadState {
    /// Waiting for the user of the token.
    CheckingUser(i32),
    /// Waiting for the measure.
    Fetching,
    /// The answer has been given.
    Done,
}

/// What the database answered while loading a measure.
pub enum LoadEvent {
    /// The outcome of loading the user of the token.
    UserChecked(Result<(), ModelError>),
    /// The measure with the requested id, if there is one.
    Fetched(Option<Measure>),
    /// The database failed.
    Failed,
}

/// What the caller does next while loading a measure.
pub enum LoadAction {
    /// Load the user whose pid the token carries.
    CheckUser,
    /// Fetch the measure with this id.
    FetchById(i32),
    /// Answer with this result.
    Finish(Result<Measure, LoadError>),
}

impl LoadState {
    /// Whether `event` answers what this state waits for.
    pub open spec fn accepts(&self, event: &LoadEvent) -> bool {
        match (*self, *event) {
            (LoadState::CheckingUser(_), LoadEvent::UserChecked(_)) => true,
            (LoadState::Fetching, LoadEvent::Fetched(_)) => true,
            (LoadState::Fetching, LoadEvent::Failed) => true,
            _ => false,
        }
    }

    /// Loading the measure `id` starts with the user of the token.
    pub fn begin(id: i32) -> (r: (LoadState, LoadAction))
        ensures
            r.0 == LoadState::CheckingUser(id),
            r.1 is CheckUser,
    {
        (LoadState::CheckingUser(id), LoadAction::CheckUser)
    }

    /// One step: a user that cannot be loaded ends the request with that error; then the
    /// measure is fetched by id, and a missing one answers `NotFound`.
    pub fn step(self, event: LoadEvent) -> (r: (LoadState, LoadAction))
        requires
            self.accepts(&event),
        ensures
            match (self, event) {
                (LoadState::CheckingUser(id), LoadEvent::UserChecked(Ok(()))) => {
                    &&& r.0 is Fetching
                    &&& r.1 == LoadAction::FetchById(id)
                },
                (LoadState::CheckingUser(_), LoadEvent::UserChecked(Err(e))) => {
                    &&& r.0 is Done
                    &&& r.1 == LoadAction::Finish(Err(LoadError::User(e)))
                },
                (LoadState::Fetching, LoadEvent::Fetched(Some(m))) => {
                    &&& r.0 is Done
                    &&& r.1 == LoadAction::Finish(Ok(m))
                },
                (LoadState::Fetching, LoadEvent::Fetched(None)) => {
                    &&& r.0 is Done
                    &&& r.1 == LoadAction::Finish(Err(LoadError::NotFound))
                },
                _ => {
                    &&& r.0 is Done
                    &&& r.1 == LoadAction::Finish(Err(LoadError::DbErr))
                },
            },
    {
        match (self, event) {
            (LoadState::CheckingUser(id), LoadEvent::UserChecked(checked)) => match require_user(
                checked,
            ) {
                Ok(()) => (LoadState::Fetching, LoadAction::FetchById(id)),
                Err(e) => (LoadState::Done, LoadAction::Finish(Err(e))),
            },
            (LoadState::Fetching, LoadEvent::Fetched(Some(m))) => (
                LoadState::Done,
                LoadAction::Finish(Ok(m)),
            ),
            (LoadState::Fetching, LoadEvent::Fetched(None)) => (
                LoadState::Done,
                LoadAction::Finish(Err(LoadError::NotFound)),
            ),
            _ => (LoadState::Done, LoadAction::Finish(Err(LoadError::DbErr))),
        }
    }
}

} // verus!
