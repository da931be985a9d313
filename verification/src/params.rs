//! The catalog of parameter artifacts, keyed by versioned names.

use vstd::prelude::*;
use vstd::string::StringExecFns;
use crate::decimal::decimal_digits;
use crate::decimal::decimal_string;

verus! {

/// What is recorded of one parameter artifact.
#[derive(Debug)]
pub struct ParameterData {
    pub cid: String,
    pub digest: String,
    pub sector_size: u64,
}

/// The record of one parameter artifact as plain values.
pub struct ParameterDataView {
    pub cid: Seq<char>,
    pub digest: Seq<char>,
    pub sector_size: u64,
}

impl View for ParameterData {
    type V = ParameterDataView;

    open spec fn view(&self) -> ParameterDataView {
        ParameterDataView { cid: self.cid@, digest: self.digest@, sector_size: self.sector_size }
    }
}

impl Clone for ParameterData {
    fn clone(&self) -> (copy: Self)
        ensures
            copy@ == self@,
    {
        ParameterData {
            cid: self.cid.clone(),
            digest: self.digest.clone(),
            sector_size: self.sector_size,
        }
    }
}

/// What follows the cache identifier in a versioned key.
pub open spec fn key_suffix() -> Seq<char> {
    seq!['.', 'p', 'a', 'r', 'a', 'm', 's']
}

/// The key under which the artifact `cache_id` of protocol version `version`
/// is recorded: `v`, the version in decimal, `-`, the identifier, `.params`.
pub open spec fn versioned_key(version: nat, cache_id: Seq<char>) -> Seq<char> {
    seq!['v'] + decimal_digits(version) + seq!['-'] + cache_id + key_suffix()
}

/// Under one protocol version, two cache identifiers have the same versioned
/// key only if they are the same identifier.
pub proof fn lemma_versioned_key_is_injective(version: nat, a: Seq<char>, b: Seq<char>)
    ensures
        versioned_key(version, a) == versioned_key(version, b) <==> a == b,
{
    if versioned_key(version, a) == versioned_key(version, b) {
        let prefix = seq!['v'] + decimal_digits(version) + seq!['-'];
        let key_a = versioned_key(version, a);
        let key_b = versioned_key(version, b);
        assert(key_a.len() == prefix.len() + a.len() + key_suffix().len());
        assert(key_b.len() == prefix.len() + b.len() + key_suffix().len());
        assert forall|i: int| 0 <= i < a.len() implies a[i] == b[i] by {
            assert(key_a[prefix.len() + i] == a[i]);
            assert(key_b[prefix.len() + i] == b[i]);
        }
        assert(a =~= b);
    }
}

/// Composes the versioned key of the artifact `cache_id` at protocol version
/// `version`.
pub fn parameter_id(version: usize, cache_id: &str) -> (key: String)
    ensures
        key@ == versioned_key(version as nat, cache_id@),
{
    proof {
        reveal_strlit("v");
        reveal_strlit("-");
        reveal_strlit(".params");
    }
    let mut key = String::from_str("v");
    let digits = decimal_string(version as u64);
    key.append(digits.as_str());
    key.append("-");
    key.append(cache_id);
    key.append(".params");
    assert(".params"@ =~= key_suffix());
    assert("v"@ =~= seq!['v']);
    assert("-"@ =~= seq!['-']);
    key
}

/// One row of the catalog.
struct CatalogEntry {
    key: String,
    data: ParameterData,
}

/// The parameter artifacts known at one protocol version, each recorded
/// under its versioned key.
pub struct ParameterCatalog {
    version: usize,
    entries: Vec<CatalogEntry>,
}

impl View for ParameterCatalog {
    type V = Map<Seq<char>, ParameterDataView>;

    /// The records of the catalog by their versioned keys.
    closed spec fn view(&self) -> Map<Seq<char>, ParameterDataView> {
        Map::new(
            |key: Seq<char>| self.row_of(key) is Some,
            |key: Seq<char>| self.entries@[self.row_of(key)->Some_0].data@,
        )
    }
}

impl ParameterCatalog {
    /// No key stands in two rows.
    #[verifier::type_invariant]
    spec fn keys_are_distinct(&self) -> bool {
        forall|i: int, j: int|
            0 <= i < j < self.entries@.len() ==> self.entries@[i].key@ != self.entries@[j].key@
    }

    /// Whether row `i` holds `key`.
    spec fn holds_at(&self, key: Seq<char>, i: int) -> bool {
        0 <= i < self.entries@.len() && self.entries@[i].key@ == key
    }

    /// The row that holds `key`, if there is one.
    spec fn row_of(&self, key: Seq<char>) -> Option<int> {
        if exists|i: int| self.holds_at(key, i) {
            Some(choose|i: int| self.holds_at(key, i))
        } else {
            None
        }
    }

    /// The protocol version whose artifacts the catalog records.
    pub closed spec fn protocol_version(&self) -> usize {
        self.version
    }

    /// A catalog for protocol version `version` with no record in it.
    pub fn new(version: usize) -> (catalog: Self)
        ensures
            catalog@ == Map::<Seq<char>, ParameterDataView>::empty(),
            catalog.protocol_version() == version,
    {
        let catalog = ParameterCatalog { version, entries: Vec::new() };
        assert(catalog@ =~= Map::<Seq<char>, ParameterDataView>::empty());
        catalog
    }

    /// The protocol version whose artifacts the catalog records.
    pub fn version(&self) -> (version: usize)
        ensures
            version == self.protocol_version(),
    {
        self.version
    }

    /// The number of records.
    pub fn len(&self) -> (count: usize)
        ensures
            count == self@.dom().len(),
            self@.dom().finite(),
    {
        proof {
            use_type_invariant(self);
            self.lemma_domain_size(self.entries@.len() as int);
            assert(self@.dom() =~= self.keys_below(self.entries@.len() as int));
        }
        self.entries.len()
    }

    /// The keys of the first `n` rows.
    spec fn keys_below(&self, n: int) -> Set<Seq<char>> {
        Set::new(|key: Seq<char>| exists|i: int| 0 <= i < n && self.holds_at(key, i))
    }

    /// The first `n` rows hold `n` keys.
    proof fn lemma_domain_size(&self, n: int)
        requires
            self.keys_are_distinct(),
            0 <= n <= self.entries@.len(),
        ensures
            self.keys_below(n).finite(),
            self.keys_below(n).len() == n,
        decreases n,
    {
        if n == 0 {
            assert(self.keys_below(0) =~= Set::<Seq<char>>::empty());
        } else {
            self.lemma_domain_size(n - 1);
            let last = self.entries@[n - 1].key@;
            assert(self.holds_at(last, n - 1));
            assert(self.keys_below(n) =~= self.keys_below(n - 1).insert(last));
            assert(!self.keys_below(n - 1).contains(last));
        }
    }

    /// The row that holds `key`, if there is one.
    fn position(&self, key: &String) -> (found: Option<usize>)
        ensures
            match found {
                Some(i) => self.holds_at(key@, i as int),
                None => forall|i: int| !self.holds_at(key@, i),
            },
    {
        let mut i: usize = 0;
        while i < self.entries.len()
            invariant
                i <= self.entries@.len(),
                forall|j: int| 0 <= j < i ==> !self.holds_at(key@, j),
            decreases self.entries@.len() - i,
        {
            if self.entries[i].key == *key {
                return Some(i);
            }
            i = i + 1;
        }
        None
    }

    /// A key that row `i` holds is in the catalog, with the record of that row.
    proof fn lemma_row_is_recorded(&self, key: Seq<char>, i: int)
        requires
            self.keys_are_distinct(),
            self.holds_at(key, i),
        ensures
            self@.contains_key(key),
            self@[key] == self.entries@[i].data@,
    {
        let chosen = choose|j: int| self.holds_at(key, j);
        assert(self.holds_at(key, chosen));
        assert(chosen == i);
    }

    /// A key that no row holds is not in the catalog.
    proof fn lemma_missing_is_absent(&self, key: Seq<char>)
        requires
            forall|i: int| !self.holds_at(key, i),
        ensures
            !self@.contains_key(key),
    {
    }

    /// Looks up the record under the versioned key `key`.
    pub fn get(&self, key: &str) -> (found: Option<&ParameterData>)
        ensures
            found is Some <==> self@.contains_key(key@),
            found matches Some(data) ==> data@ == self@[key@],
    {
        proof {
            use_type_invariant(self);
        }
        let owned = String::from_str(key);
        match self.position(&owned) {
            Some(i) => {
                proof {
                    self.lemma_row_is_recorded(key@, i as int);
                }
                Some(&self.entries[i].data)
            },
            None => {
                proof {
                    self.lemma_missing_is_absent(key@);
                }
                None
            },
        }
    }

    /// A catalog whose rows are those of `before`, but for row `i`, which
    /// holds `key` with `data`, records what `before` records with `data`
    /// under `key`. Row `i` is the row that held `key` in `before`, or a new
    /// last row where no row held it.
    proof fn lemma_row_written(
        before: Self,
        after: Self,
        key: Seq<char>,
        data: ParameterDataView,
        i: int,
    )
        requires
            before.keys_are_distinct(),
            after.keys_are_distinct(),
            0 <= i <= before.entries@.len(),
            i < before.entries@.len() ==> before.entries@[i].key@ == key
                && after.entries@.len() == before.entries@.len(),
            i == before.entries@.len() ==> after.entries@.len() == before.entries@.len() + 1
                && forall|j: int| !before.holds_at(key, j),
            after.entries@[i].key@ == key,
            after.entries@[i].data@ == data,
            forall|j: int|
                0 <= j < before.entries@.len() && j != i ==> after.entries@[j]
                    == before.entries@[j],
        ensures
            after@ == before@.insert(key, data),
    {
        assert forall|other: Seq<char>, j: int|
            after.holds_at(other, j) == (before.holds_at(other, j) || (j == i && other
                == key)) by {}
        assert(after.holds_at(key, i));
        assert forall|other: Seq<char>| #[trigger]
            after@.contains_key(other) == before@.insert(key, data).contains_key(other) by {
            if after@.contains_key(other) {
                let j = choose|j: int| after.holds_at(other, j);
                assert(before.holds_at(other, j) || other == key);
            }
            if before@.contains_key(other) {
                let j = choose|j: int| before.holds_at(other, j);
                assert(after.holds_at(other, j));
            }
        }
        assert forall|other: Seq<char>| #[trigger]
            after@.contains_key(other) implies after@[other] == before@.insert(
            key,
            data,
        )[other] by {
            let j = choose|j: int| after.holds_at(other, j);
            after.lemma_row_is_recorded(other, j);
            if other != key {
                assert(before.holds_at(other, j));
                before.lemma_row_is_recorded(other, j);
            } else {
                after.lemma_row_is_recorded(key, i);
            }
        }
        assert(after@ =~= before@.insert(key, data));
    }

    /// Records `data` under the versioned key `key`, in place of what was
    /// recorded under that key before.
    pub fn insert(&mut self, key: String, data: ParameterData)
        ensures
            final(self)@ == old(self)@.insert(key@, data@),
            final(self).protocol_version() == old(self).protocol_version(),
    {
        proof {
            use_type_invariant(&*self);
        }
        let ghost before = *self;
        let ghost k = key@;
        let ghost d = data@;
        let found = self.position(&key);
        let mut taken = ParameterCatalog { version: self.version, entries: Vec::new() };
        std::mem::swap(self, &mut taken);
        let ParameterCatalog { version, entries } = taken;
        let mut entries = entries;
        let ghost row: int;
        match found {
            Some(i) => {
                entries.set(i, CatalogEntry { key, data });
                proof {
                    row = i as int;
                }
            },
            None => {
                entries.push(CatalogEntry { key, data });
                proof {
                    row = before.entries@.len() as int;
                }
            },
        }
        proof {
            assert forall|i: int, j: int| 0 <= i < j < entries@.len() implies entries@[i].key@
                != entries@[j].key@ by {
                if j == row {
                    assert(before.holds_at(entries@[i].key@, i));
                }
                if i == row {
                    assert(before.holds_at(entries@[j].key@, j));
                }
            }
        }
        *self = ParameterCatalog { version, entries };
        proof {
            Self::lemma_row_written(before, *self, k, d, row);
        }
    }

    /// A catalog for protocol version `version` that records each pair of
    /// `entries` under its key. Where a key occurs more than once, the last
    /// pair with that key stands.
    pub fn from_entries(version: usize, entries: &Vec<(String, ParameterData)>) -> (catalog: Self)
        ensures
            catalog@ == records_of(entries@),
            catalog.protocol_version() == version,
    {
        let mut catalog = ParameterCatalog::new(version);
        let mut i: usize = 0;
        while i < entries.len()
            invariant
                i <= entries@.len(),
                catalog@ == records_of(entries@.take(i as int)),
                catalog.protocol_version() == version,
            decreases entries@.len() - i,
        {
            let key = entries[i].0.clone();
            let data = entries[i].1.clone();
            catalog.insert(key, data);
            proof {
                assert(entries@.take(i + 1).drop_last() =~= entries@.take(i as int));
            }
            i = i + 1;
        }
        proof {
            assert(entries@.take(i as int) =~= entries@);
        }
        catalog
    }
}

/// The records that a list of keyed records amounts to: each under its key,
/// a later one in place of an earlier one with the same key.
pub open spec fn records_of(entries: Seq<(String, ParameterData)>) -> Map<
    Seq<char>,
    ParameterDataView,
>
    decreases entries.len(),
{
    if entries.len() == 0 {
        Map::empty()
    } else {
        records_of(entries.drop_last()).insert(entries.last().0@, entries.last().1@)
    }
}

/// Get the correct parameter data for a given cache id: the record under the
/// versioned key of `cache_id` at the catalog's protocol version, if the
/// catalog holds one.
pub fn get_parameter_data<'a>(catalog: &'a ParameterCatalog, cache_id: &str) -> (found: Option<
    &'a ParameterData,
>)
    ensures
        found is Some <==> catalog@.contains_key(
            versioned_key(catalog.protocol_version() as nat, cache_id@),
        ),
        found matches Some(data) ==> data@ == catalog@[versioned_key(
            catalog.protocol_version() as nat,
            cache_id@,
        )],
{
    let key = parameter_id(catalog.version(), cache_id);
    catalog.get(key.as_str())
}

} // verus!
