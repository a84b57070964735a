//! The plate table and the sighting log of the storage gateway, held in
//! memory.
//!
//! A plate has one row, created when the plate is first seen, and a name
//! once a user has given it one. Every sighting adds a row to the log; the
//! log is never changed otherwise. A gateway that keeps its tables
//! elsewhere is to answer as this one does.
use crate::text::opt_string;
use vstd::prelude::*;

verus! {

/// A point in time, counted from the Unix epoch.
#[derive(Clone, Copy, Debug, PartialEq, Eq, Structural)]
pub struct Timestamp {
    pub secs: u64,
    pub nanos: u32,
}

/// A row of the plate table.
#[derive(Debug, PartialEq, Eq)]
pub struct Plate {
    pub id: String,
    pub name: Option<String>,
}

/// A row of the sighting log.
#[derive(Debug, PartialEq, Eq)]
pub struct Spotting {
    pub plate_id: String,
    pub timestamp: Timestamp,
}

/// The two tables.
#[derive(Debug, PartialEq, Eq)]
pub struct PlateStore {
    plates: Vec<Plate>,
    spottings: Vec<Spotting>,
}

/// A plate row as a mathematical value: the id and the name.
pub type PlateRow = (Seq<char>, Option<Seq<char>>);

/// A `PlateStore` as a mathematical value.
#[verifier::ext_equal]
pub struct StoreView {
    pub plates: Seq<PlateRow>,
    pub spottings: Seq<(Seq<char>, Timestamp)>,
}

/// The last row for `id` among `plates`.
pub open spec fn row_of(plates: Seq<PlateRow>, id: Seq<char>) -> Option<PlateRow>
    decreases plates.len(),
{
    if plates.len() == 0 {
        None
    } else if plates.last().0 == id {
        Some(plates.last())
    } else {
        row_of(plates.drop_last(), id)
    }
}

/// How many rows `plates` has for `id`.
pub open spec fn plate_rows(plates: Seq<PlateRow>, id: Seq<char>) -> nat
    decreases plates.len(),
{
    if plates.len() == 0 {
        0
    } else {
        plate_rows(plates.drop_last(), id) + if plates.last().0 == id {
            1nat
        } else {
            0nat
        }
    }
}

/// How many sightings of `id` the log holds.
pub open spec fn sightings(spottings: Seq<(Seq<char>, Timestamp)>, id: Seq<char>) -> nat
    decreases spottings.len(),
{
    if spottings.len() == 0 {
        0
    } else {
        sightings(spottings.drop_last(), id) + if spottings.last().0 == id {
            1nat
        } else {
            0nat
        }
    }
}

/// The row `row` with `name` for its name if it is the row of `id`.
pub open spec fn renamed(row: PlateRow, id: Seq<char>, name: Seq<char>) -> PlateRow {
    if row.0 == id {
        (row.0, Some(name))
    } else {
        row
    }
}

impl StoreView {
    /// The id is the table's key: no plate has two rows.
    pub open spec fn wf(self) -> bool {
        forall|id: Seq<char>| #[trigger] plate_rows(self.plates, id) <= 1
    }

    /// The tables as they are first made.
    pub open spec fn empty() -> StoreView {
        StoreView { plates: Seq::empty(), spottings: Seq::empty() }
    }

    /// Whether the plate has a row.
    pub open spec fn knows(self, id: Seq<char>) -> bool {
        row_of(self.plates, id) is Some
    }

    /// The name that the plate is known by: `None` for a plate without a
    /// row or without a name.
    pub open spec fn name_of(self, id: Seq<char>) -> Option<Seq<char>> {
        match row_of(self.plates, id) {
            Some(row) => row.1,
            None => None,
        }
    }

    /// The tables after a sighting of `id` at `at`: a plate that had no row
    /// gets one, without a name, and the log grows by one row.
    pub open spec fn record(self, id: Seq<char>, at: Timestamp) -> StoreView {
        StoreView {
            plates: if self.knows(id) {
                self.plates
            } else {
                self.plates.push((id, None))
            },
            spottings: self.spottings.push((id, at)),
        }
    }

    /// The tables after `id` was given `name`: nothing changes for a plate
    /// without a row.
    pub open spec fn rename(self, id: Seq<char>, name: Seq<char>) -> StoreView {
        StoreView {
            plates: self.plates.map_values(|row: PlateRow| renamed(row, id, name)),
            spottings: self.spottings,
        }
    }
}

impl View for Plate {
    type V = PlateRow;

    open spec fn view(&self) -> PlateRow {
        (self.id@, opt_string(self.name))
    }
}

impl View for Spotting {
    type V = (Seq<char>, Timestamp);

    open spec fn view(&self) -> (Seq<char>, Timestamp) {
        (self.plate_id@, self.timestamp)
    }
}

impl View for PlateStore {
    type V = StoreView;

    closed spec fn view(&self) -> StoreView {
        StoreView {
            plates: self.plates@.map_values(|p: Plate| p@),
            spottings: self.spottings@.map_values(|s: Spotting| s@),
        }
    }
}

/// A plate has a row exactly if the table counts one for it.
pub proof fn lemma_known_is_counted(plates: Seq<PlateRow>, id: Seq<char>)
    ensures
        row_of(plates, id) is Some <==> plate_rows(plates, id) > 0,
        row_of(plates, id) matches Some(row) ==> row.0 == id,
    decreases plates.len(),
{
    if plates.len() > 0 {
        lemma_known_is_counted(plates.drop_last(), id);
    }
}

/// Adding a row adds one to the count of its plate and to no other.
pub proof fn lemma_rows_after_push(plates: Seq<PlateRow>, row: PlateRow, id: Seq<char>)
    ensures
        plate_rows(plates.push(row), id) == plate_rows(plates, id) + if row.0 == id {
            1nat
        } else {
            0nat
        },
{
    assert(plates.push(row).drop_last() == plates);
}

/// Adding a sighting adds one to the count of its plate and to no other.
pub proof fn lemma_sightings_after_push(
    spottings: Seq<(Seq<char>, Timestamp)>,
    row: (Seq<char>, Timestamp),
    id: Seq<char>,
)
    ensures
        sightings(spottings.push(row), id) == sightings(spottings, id) + if row.0 == id {
            1nat
        } else {
            0nat
        },
{
    assert(spottings.push(row).drop_last() == spottings);
}

/// Naming a plate changes no id: every plate keeps its count of rows, and
/// the named plate, if it has a row, has the name.
pub proof fn lemma_rows_after_rename(
    plates: Seq<PlateRow>,
    id: Seq<char>,
    name: Seq<char>,
    other: Seq<char>,
)
    ensures
        plate_rows(plates.map_values(|row: PlateRow| renamed(row, id, name)), other) == plate_rows(
            plates,
            other,
        ),
        row_of(plates.map_values(|row: PlateRow| renamed(row, id, name)), other) == (match row_of(
            plates,
            other,
        ) {
            Some(row) => Some(renamed(row, id, name)),
            None => None,
        }),
    decreases plates.len(),
{
    let f = |row: PlateRow| renamed(row, id, name);
    if plates.len() > 0 {
        lemma_rows_after_rename(plates.drop_last(), id, name, other);
        assert(plates.map_values(f).drop_last() == plates.drop_last().map_values(f));
    }
}

/// Recording a sighting and naming a plate keep the key unique.
pub proof fn lemma_wf_is_kept(store: StoreView, id: Seq<char>, name: Seq<char>, at: Timestamp)
    requires
        store.wf(),
    ensures
        store.record(id, at).wf(),
        store.rename(id, name).wf(),
{
    assert forall|other: Seq<char>| #[trigger]
        plate_rows(store.record(id, at).plates, other) <= 1 by {
        lemma_known_is_counted(store.plates, id);
        lemma_rows_after_push(store.plates, (id, None), other);
        assert(plate_rows(store.plates, other) <= 1);
    }
    assert forall|other: Seq<char>| #[trigger]
        plate_rows(store.rename(id, name).plates, other) <= 1 by {
        lemma_rows_after_rename(store.plates, id, name, other);
        assert(plate_rows(store.plates, other) <= 1);
    }
}

/// The tables of a store that has seen nothing.
pub fn open() -> (store: PlateStore)
    ensures
        store@ == StoreView::empty(),
        store@.wf(),
{
    let store = PlateStore { plates: Vec::new(), spottings: Vec::new() };
    assert(store@.plates =~= Seq::empty());
    assert(store@.spottings =~= Seq::empty());
    store
}

/// The position of the last row for `id`, if the plate has a row.
fn find_plate(plates: &Vec<Plate>, id: &str) -> (r: Option<usize>)
    ensures
        match r {
            Some(i) => i < plates.len() && row_of(plates@.map_values(|p: Plate| p@), id@) == Some(
                plates[i as int]@,
            ),
            None => row_of(plates@.map_values(|p: Plate| p@), id@) is None,
        },
{
    let wanted = id.to_owned();
    let ghost rows = plates@.map_values(|p: Plate| p@);
    let mut i: usize = plates.len();
    assert(rows.take(i as int) == rows);
    while i > 0
        invariant
            i <= plates.len(),
            rows == plates@.map_values(|p: Plate| p@),
            wanted@ == id@,
            row_of(rows, id@) == row_of(rows.take(i as int), id@),
        decreases i,
    {
        i = i - 1;
        proof {
            let upto = rows.take(i + 1);
            assert(upto.last() == rows[i as int]);
            assert(upto.drop_last() == rows.take(i as int));
        }
        if plates[i].id == wanted {
            return Some(i);
        }
    }
    None
}

/// Records a sighting of `plate` at `at` and returns the name that the
/// plate is known by, if it has one. A plate that is seen for the first time
/// gets its row; a plate that has one keeps it as it is.
pub fn handle_spotted_plate(store: &mut PlateStore, plate: &str, at: Timestamp) -> (name: Option<
    String,
>)
    requires
        old(store)@.wf(),
    ensures
        final(store)@ == old(store)@.record(plate@, at),
        final(store)@.wf(),
        opt_string(name) == old(store)@.name_of(plate@),
        opt_string(name) == final(store)@.name_of(plate@),
{
    proof {
        lemma_wf_is_kept(store@, plate@, Seq::empty(), at);
    }
    let found = find_plate(&store.plates, plate);
    let name = match found {
        Some(i) => match &store.plates[i].name {
            Some(n) => Some(n.clone()),
            None => None,
        },
        None => {
            store.plates.push(Plate { id: plate.to_owned(), name: None });
            None
        },
    };
    store.spottings.push(Spotting { plate_id: plate.to_owned(), timestamp: at });
    proof {
        let before = old(store)@;
        assert(store@.spottings =~= before.spottings.push((plate@, at)));
        if found is None {
            assert(store@.plates =~= before.plates.push((plate@, None)));
            assert(before.plates.push((plate@, None::<Seq<char>>)).drop_last() == before.plates);
        } else {
            assert(store@.plates =~= before.plates);
        }
    }
    name
}

/// Gives `plate` the name `name`. A plate without a row is left without
/// one.
pub fn update_name(store: &mut PlateStore, plate: &str, name: &str)
    requires
        old(store)@.wf(),
    ensures
        final(store)@ == old(store)@.rename(plate@, name@),
        final(store)@.wf(),
{
    proof {
        lemma_wf_is_kept(store@, plate@, name@, Timestamp { secs: 0, nanos: 0 });
    }
    let wanted = plate.to_owned();
    let ghost before = store@;
    let mut i: usize = 0;
    while i < store.plates.len()
        invariant
            i <= store.plates.len(),
            wanted@ == plate@,
            store.plates.len() == before.plates.len(),
            store.spottings == old(store).spottings,
            forall|k: int|
                0 <= k < i ==> (#[trigger] store.plates[k])@ == renamed(
                    before.plates[k],
                    plate@,
                    name@,
                ),
            forall|k: int|
                i <= k < store.plates.len() ==> (#[trigger] store.plates[k])@ == before.plates[k],
        decreases store.plates.len() - i,
    {
        if store.plates[i].id == wanted {
            let row = Plate { id: plate.to_owned(), name: Some(name.to_owned()) };
            store.plates.set(i, row);
        }
        i = i + 1;
    }
    assert(store@.plates =~= before.rename(plate@, name@).plates);
    assert(store@.spottings =~= before.spottings);
}

impl PlateStore {
    /// How many rows the plate table has.
    pub fn plate_count(&self) -> (n: usize)
        ensures
            n == self@.plates.len(),
    {
        self.plates.len()
    }

    /// How many rows the sighting log has.
    pub fn spotting_count(&self) -> (n: usize)
        ensures
            n == self@.spottings.len(),
    {
        self.spottings.len()
    }

    /// How many rows the plate table has for `plate`.
    pub fn rows_of(&self, plate: &str) -> (n: usize)
        ensures
            n == plate_rows(self@.plates, plate@),
    {
        let wanted = plate.to_owned();
        let ghost rows = self@.plates;
        let mut n: usize = 0;
        let mut i: usize = 0;
        assert(rows.take(0) =~= Seq::empty());
        while i < self.plates.len()
            invariant
                i <= self.plates.len(),
                rows == self.plates@.map_values(|p: Plate| p@),
                wanted@ == plate@,
                n <= i,
                n == plate_rows(rows.take(i as int), plate@),
            decreases self.plates.len() - i,
        {
            proof {
                let upto = rows.take(i + 1);
                assert(upto.last() == self.plates[i as int]@);
                assert(upto.drop_last() == rows.take(i as int));
            }
            if self.plates[i].id == wanted {
                n = n + 1;
            }
            i = i + 1;
        }
        assert(rows.take(i as int) == rows);
        n
    }

    /// How many sightings of `plate` the log holds.
    pub fn sightings_of(&self, plate: &str) -> (n: usize)
        ensures
            n == sightings(self@.spottings, plate@),
    {
        let wanted = plate.to_owned();
        let ghost rows = self@.spottings;
        let mut n: usize = 0;
        let mut i: usize = 0;
        assert(rows.take(0) =~= Seq::empty());
        while i < self.spottings.len()
            invariant
                i <= self.spottings.len(),
                rows == self.spottings@.map_values(|s: Spotting| s@),
                wanted@ == plate@,
                n <= i,
                n == sightings(rows.take(i as int), plate@),
            decreases self.spottings.len() - i,
        {
            proof {
                let upto = rows.take(i + 1);
                assert(upto.last() == self.spottings[i as int]@);
                assert(upto.drop_last() == rows.take(i as int));
            }
            if self.spottings[i].plate_id == wanted {
                n = n + 1;
            }
            i = i + 1;
        }
        assert(rows.take(i as int) == rows);
        n
    }

    /// The name that `plate` is known by, without recording anything.
    pub fn name_of(&self, plate: &str) -> (name: Option<String>)
        ensures
            opt_string(name) == self@.name_of(plate@),
    {
        match find_plate(&self.plates, plate) {
            Some(i) => match &self.plates[i].name {
                Some(n) => Some(n.clone()),
                None => None,
            },
            None => None,
        }
    }
}

/// A plate that is seen twice has exactly one row, and the log has two more
/// sightings of it than before; no other plate gains or loses a row.
pub proof fn law_second_sighting_adds_no_plate(
    store: StoreView,
    id: Seq<char>,
    first: Timestamp,
    second: Timestamp,
)
    requires
        store.wf(),
    ensures
        ({
            let after = store.record(id, first).record(id, second);
            &&& plate_rows(after.plates, id) == 1
            &&& sightings(after.spottings, id) == sightings(store.spottings, id) + 2
            &&& after.spottings.len() == store.spottings.len() + 2
            &&& forall|other: Seq<char>|
                other != id ==> #[trigger] plate_rows(after.plates, other) == plate_rows(
                    store.plates,
                    other,
                )
        }),
{
    let once = store.record(id, first);
    let after = once.record(id, second);
    lemma_known_is_counted(store.plates, id);
    lemma_rows_after_push(store.plates, (id, None), id);
    lemma_known_is_counted(once.plates, id);
    assert(plate_rows(store.plates, id) <= 1);
    assert(after.plates == once.plates);
    lemma_sightings_after_push(store.spottings, (id, first), id);
    lemma_sightings_after_push(once.spottings, (id, second), id);
    assert forall|other: Seq<char>| other != id implies #[trigger] plate_rows(after.plates, other)
        == plate_rows(store.plates, other) by {
        lemma_rows_after_push(store.plates, (id, None), other);
    }
}

/// A plate that was never seen has no name at its first sighting.
pub proof fn law_new_plate_has_no_name(store: StoreView, id: Seq<char>, at: Timestamp)
    requires
        !store.knows(id),
    ensures
        store.name_of(id) is None,
        store.record(id, at).name_of(id) is None,
        store.record(id, at).knows(id),
{
    assert(store.plates.push((id, None::<Seq<char>>)).last() == (id, None::<Seq<char>>));
}

/// A name that was given to a plate is the name that every later sighting
/// of the plate returns.
pub proof fn law_name_is_kept(store: StoreView, id: Seq<char>, name: Seq<char>, at: Timestamp)
    requires
        store.knows(id),
    ensures
        store.rename(id, name).name_of(id) == Some(name),
        store.rename(id, name).record(id, at).name_of(id) == Some(name),
{
    lemma_rows_after_rename(store.plates, id, name, id);
    lemma_known_is_counted(store.plates, id);
}

} // verus!
