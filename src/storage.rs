use vstd::prelude::*;

use crate::arguments::{ProviderRecord, WeatherError, WeatherProvider};

verus! {

/// Whether some record of `s` carries `name`.
pub open spec fn has_name(s: Seq<ProviderRecord>, name: Seq<char>) -> bool {
    exists|i: int| 0 <= i < s.len() && #[trigger] s[i].name == name
}

/// `i` is the position of the first record of `s` that carries `name`.
pub open spec fn is_first_match(s: Seq<ProviderRecord>, name: Seq<char>, i: int) -> bool {
    &&& 0 <= i < s.len()
    &&& s[i].name == name
    &&& forall|j: int| 0 <= j < i ==> #[trigger] s[j].name != name
}

/// No two records of `s` carry the same name.
pub open spec fn names_unique(s: Seq<ProviderRecord>) -> bool {
    forall|i: int, j: int|
        0 <= i < s.len() && 0 <= j < s.len() && i != j ==> #[trigger] s[i].name != #[trigger] s[j].name
}

/// The values of a sequence of records.
pub open spec fn records_view(v: Seq<WeatherProvider>) -> Seq<ProviderRecord> {
    Seq::new(v.len(), |i: int| v[i]@)
}

/// Adding a record whose name is not stored gives a record set in which
/// exactly one record carries that name, the added one with its fields as
/// given, and keeps names unique.
pub proof fn added_record_listed_once(before: Seq<ProviderRecord>, p: ProviderRecord)
    requires
        !has_name(before, p.name),
    ensures
        before.push(p)[before.len() as int] == p,
        forall|i: int|
            0 <= i < before.push(p).len() && #[trigger] before.push(p)[i].name == p.name ==> i
                == before.len(),
        names_unique(before) ==> names_unique(before.push(p)),
{
    let after = before.push(p);
    assert forall|i: int| 0 <= i < after.len() && #[trigger] after[i].name == p.name implies i
        == before.len() by {
        if i < before.len() {
            assert(after[i] == before[i]);
        }
    }
    if names_unique(before) {
        assert forall|i: int, j: int|
            0 <= i < after.len() && 0 <= j < after.len() && i != j implies #[trigger] after[i].name
            != #[trigger] after[j].name by {
            if i < before.len() && j < before.len() {
                assert(after[i] == before[i] && after[j] == before[j]);
            } else if i < before.len() {
                assert(after[i] == before[i]);
            } else {
                assert(after[j] == before[j]);
            }
        }
    }
}

/// Removing a stored name from a record set whose names are unique leaves no
/// record of that name, keeps every other record, and keeps names unique.
pub proof fn removed_name_is_gone(before: Seq<ProviderRecord>, name: Seq<char>, i: int)
    requires
        names_unique(before),
        is_first_match(before, name, i),
    ensures
        !has_name(before.remove(i), name),
        forall|j: int|
            0 <= j < before.len() && #[trigger] before[j].name != name ==> before.remove(i).contains(
                before[j],
            ),
        names_unique(before.remove(i)),
{
    let after = before.remove(i);
    assert forall|k: int| 0 <= k < after.len() implies #[trigger] after[k].name != name by {
        if k < i {
            assert(after[k] == before[k]);
        } else {
            assert(after[k] == before[k + 1]);
        }
    }
    assert forall|j: int|
        0 <= j < before.len() && #[trigger] before[j].name != name implies after.contains(
        before[j],
    ) by {
        if j < i {
            assert(after[j] == before[j]);
        } else {
            assert(j != i);
            assert(after[j - 1] == before[j]);
        }
    }
    assert forall|a: int, b: int|
        0 <= a < after.len() && 0 <= b < after.len() && a != b implies #[trigger] after[a].name
        != #[trigger] after[b].name by {
        let a0 = if a < i { a } else { a + 1 };
        let b0 = if b < i { b } else { b + 1 };
        assert(after[a] == before[a0] && after[b] == before[b0]);
    }
}

/// What reading the record file came to, as seen by the storage.
pub enum LoadOutcome {
    /// There is no record file.
    Missing,
    /// The file exists but could not be opened or read.
    Unreadable(String),
    /// The file holds nothing.
    Empty,
    /// The file's content is not a list of records.
    Malformed(String),
    /// The file holds these records, in file order.
    Records(Vec<WeatherProvider>),
}

/// The record store: the full record set, loaded from and saved to the record
/// file as a whole.
pub struct ProductionDataStorage {
    records: Vec<WeatherProvider>,
}

impl View for ProductionDataStorage {
    type V = Seq<ProviderRecord>;

    closed spec fn view(&self) -> Seq<ProviderRecord> {
        records_view(self.records@)
    }
}

impl ProductionDataStorage {
    /// A store that holds no record.
    pub fn new() -> (r: ProductionDataStorage)
        ensures
            r@ == Seq::<ProviderRecord>::empty(),
    {
        let r = ProductionDataStorage { records: Vec::new() };
        assert(r@ =~= Seq::<ProviderRecord>::empty());
        r
    }

    /// A store that holds `records`, in their order.
    pub fn from_records(records: Vec<WeatherProvider>) -> (r: ProductionDataStorage)
        ensures
            r@ == records_view(records@),
    {
        ProductionDataStorage { records }
    }

    /// The store that a read of the record file gives: a missing or empty file
    /// is an empty store, an unreadable or malformed one an error.
    pub fn load(outcome: LoadOutcome) -> (r: Result<ProductionDataStorage, WeatherError>)
        ensures
            match outcome {
                LoadOutcome::Missing | LoadOutcome::Empty => r matches Ok(s) && s@.len() == 0,
                LoadOutcome::Unreadable(m) => r matches Err(WeatherError::StorageIo(e)) && e@ == m@,
                LoadOutcome::Malformed(m) => r matches Err(WeatherError::StorageFormat(e)) && e@
                    == m@,
                LoadOutcome::Records(v) => r matches Ok(s) && s@ == records_view(v@),
            },
    {
        match outcome {
            LoadOutcome::Missing => Ok(ProductionDataStorage::new()),
            LoadOutcome::Empty => Ok(ProductionDataStorage::new()),
            LoadOutcome::Unreadable(m) => Err(WeatherError::StorageIo(m)),
            LoadOutcome::Malformed(m) => Err(WeatherError::StorageFormat(m)),
            LoadOutcome::Records(v) => Ok(ProductionDataStorage::from_records(v)),
        }
    }

    /// The records, in store order, handed over for saving.
    pub fn into_records(self) -> (r: Vec<WeatherProvider>)
        ensures
            records_view(r@) == self@,
    {
        self.records
    }

    /// Every stored record, in store order.
    pub fn get_all_providers(&self) -> (r: Vec<WeatherProvider>)
        ensures
            records_view(r@) == self@,
    {
        let mut out: Vec<WeatherProvider> = Vec::new();
        let mut i: usize = 0;
        while i < self.records.len()
            invariant
                i <= self.records@.len(),
                out@.len() == i,
                forall|j: int| 0 <= j < i ==> #[trigger] out@[j]@ == self.records@[j]@,
            decreases self.records@.len() - i,
        {
            let p = self.records[i].duplicate();
            out.push(p);
            i = i + 1;
        }
        assert(records_view(out@) =~= self@);
        out
    }

    /// The position of the first record named `name`, if any.
    fn position(&self, name: &str) -> (r: Option<usize>)
        ensures
            match r {
                Some(i) => is_first_match(self@, name@, i as int),
                None => !has_name(self@, name@),
            },
    {
        let wanted = String::from_str(name);
        let mut i: usize = 0;
        while i < self.records.len()
            invariant
                i <= self.records@.len(),
                wanted@ == name@,
                forall|j: int| 0 <= j < i ==> #[trigger] self@[j].name != name@,
            decreases self.records@.len() - i,
        {
            if self.records[i].name == wanted {
                return Some(i);
            }
            i = i + 1;
        }
        None
    }

    /// The first record named `name`.
    pub fn get_provider(&self, name: &str) -> (r: Result<WeatherProvider, WeatherError>)
        ensures
            has_name(self@, name@) <==> r is Ok,
            r matches Err(e) ==> e == WeatherError::NotFound,
            r matches Ok(p) ==> exists|i: int| is_first_match(self@, name@, i) && p@ == self@[i],
    {
        match self.position(name) {
            Some(i) => Ok(self.records[i].duplicate()),
            None => Err(WeatherError::NotFound),
        }
    }

    /// Appends `provider` to the records; names are not checked here.
    pub fn add_provider(&mut self, provider: WeatherProvider)
        ensures
            final(self)@ == old(self)@.push(provider@),
    {
        self.records.push(provider);
        assert(self@ =~= old(self)@.push(provider@));
    }

    /// Deletes the first record named `name`.
    pub fn remove_provider(&mut self, name: &str) -> (r: Result<(), WeatherError>)
        ensures
            has_name(old(self)@, name@) <==> r is Ok,
            r matches Err(e) ==> e == WeatherError::NotFound && final(self)@ == old(self)@,
            r is Ok ==> exists|i: int|
                is_first_match(old(self)@, name@, i) && final(self)@ == old(self)@.remove(i),
    {
        match self.position(name) {
            Some(i) => {
                self.records.remove(i);
                assert(self@ =~= old(self)@.remove(i as int));
                Ok(())
            },
            None => Err(WeatherError::NotFound),
        }
    }
}

} // verus!
