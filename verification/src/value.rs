use vstd::prelude::*;

verus! {

/// A decoded TOML value, as the host sees it: scalars are carried as plain
/// values, an array as an ordered sequence, a table as an ordered list of
/// key/value pairs.
///
/// A TOML float is carried by its raw bit pattern and a datetime by its text,
/// so that every variant holds plain values only.
#[derive(Debug, PartialEq, Eq)]
pub enum NativeValue {
    /// A TOML string.
    Text(String),
    /// A TOML integer.
    Int(i64),
    /// The raw bit pattern of a TOML float.
    FloatBits(u64),
    /// A TOML boolean.
    Bool(bool),
    /// A TOML datetime, carried as its text.
    Datetime(String),
    /// A TOML array, order preserved.
    Array(Vec<NativeValue>),
    /// A TOML table, one entry per key, in the order the parse hands them out.
    Table(Vec<(String, NativeValue)>),
}

/// The mapping a decode produces: an ordered list of top-level key/value
/// pairs with pairwise distinct keys.
#[derive(Debug, PartialEq, Eq)]
pub struct Mapping {
    entries: Vec<(String, NativeValue)>,
}

impl View for Mapping {
    type V = Seq<(String, NativeValue)>;

    closed spec fn view(&self) -> Seq<(String, NativeValue)> {
        self.entries@
    }
}

impl Mapping {
    /// No two entries share a key.
    pub open spec fn wf(self) -> bool {
        forall|i: int, j: int|
            0 <= i < j < self@.len() ==> self@[i].0@ != self@[j].0@
    }

    /// The mapping with no entries.
    pub fn empty() -> (r: Mapping)
        ensures
            r@ == Seq::<(String, NativeValue)>::empty(),
            r.wf(),
    {
        Mapping { entries: Vec::new() }
    }

    pub(crate) fn from_entries(entries: Vec<(String, NativeValue)>) -> (r: Mapping)
        ensures
            r@ == entries@,
    {
        Mapping { entries }
    }

    /// How many top-level keys the mapping holds.
    pub fn len(&self) -> (n: usize)
        ensures
            n == self@.len(),
    {
        self.entries.len()
    }

    /// Whether the mapping holds no entry at all.
    pub fn is_empty(&self) -> (r: bool)
        ensures
            r == (self@.len() == 0),
    {
        self.entries.is_empty()
    }

    /// The entry at a position, in the order the decode produced.
    pub fn entry_at(&self, i: usize) -> (e: &(String, NativeValue))
        requires
            i < self@.len(),
        ensures
            *e == self@[i as int],
    {
        &self.entries[i]
    }

    /// The value under a key, or nothing when the key is absent.
    pub fn get<'a>(&'a self, key: &str) -> (r: Option<&'a NativeValue>)
        ensures
            match r {
                Some(v) => exists|i: int|
                    0 <= i < self@.len() && #[trigger] self@[i].0@ == key@ && self@[i].1 == *v,
                None => forall|i: int| 0 <= i < self@.len() ==> self@[i].0@ != key@,
            },
    {
        let n = self.entries.len();
        let mut i: usize = 0;
        while i < n
            invariant
                n == self@.len(),
                i <= n,
                forall|j: int| 0 <= j < i ==> self@[j].0@ != key@,
            decreases n - i,
        {
            let p = &self.entries[i];
            if crate::bridge::str_eq(p.0.as_str(), key) {
                return Some(&p.1);
            }
            i += 1;
        }
        None
    }
}

} // verus!
