//! The string-to-string maps that the plugin hands to the host with a
//! request and gets back with the matching event.
use vstd::prelude::*;

verus! {

/// The view of one entry: key and value as character sequences.
pub open spec fn entry_view(e: (String, String)) -> (Seq<char>, Seq<char>) {
    (e.0@, e.1@)
}

/// The value stored under `key`, looking at the entries in order.
pub open spec fn lookup(entries: Seq<(Seq<char>, Seq<char>)>, key: Seq<char>) -> Option<Seq<char>>
    decreases entries.len(),
{
    if entries.len() == 0 {
        None
    } else if entries[0].0 == key {
        Some(entries[0].1)
    } else {
        lookup(entries.drop_first(), key)
    }
}

/// Whether no key occurs twice among `entries`, as in a map.
pub open spec fn keys_distinct(entries: Seq<(Seq<char>, Seq<char>)>) -> bool {
    forall|i: int, j: int|
        0 <= i < j < entries.len() ==> #[trigger] entries[i].0 != #[trigger] entries[j].0
}

/// The views of a list of entries.
pub open spec fn entries_view(entries: Seq<(String, String)>) -> Seq<(Seq<char>, Seq<char>)> {
    entries.map_values(|e: (String, String)| entry_view(e))
}

/// Whether no key occurs twice among `entries`.
pub fn keys_are_distinct(entries: &Vec<(String, String)>) -> (b: bool)
    ensures
        b == keys_distinct(entries_view(entries@)),
{
    let n = entries.len();
    let ghost v = entries_view(entries@);
    let mut j: usize = 0;
    while j < n
        invariant
            j <= n,
            n == entries@.len(),
            v == entries_view(entries@),
            forall|a: int, b: int| 0 <= a < b < j ==> #[trigger] v[a].0 != #[trigger] v[b].0,
        decreases n - j,
    {
        let mut i: usize = 0;
        while i < j
            invariant
                i <= j < n,
                n == entries@.len(),
                v == entries_view(entries@),
                forall|a: int| 0 <= a < i ==> #[trigger] v[a].0 != v[j as int].0,
            decreases j - i,
        {
            if entries[i].0 == entries[j].0 {
                assert(v[i as int].0 == v[j as int].0);
                return false;
            }
            i = i + 1;
        }
        j = j + 1;
    }
    true
}

/// A map from names to values, as the host's event contexts carry it: no
/// key occurs twice. It holds its entries in the order they were given.
#[derive(Debug)]
pub struct Context {
    entries: Vec<(String, String)>,
}

impl View for Context {
    type V = Seq<(Seq<char>, Seq<char>)>;

    closed spec fn view(&self) -> Seq<(Seq<char>, Seq<char>)> {
        entries_view(self.entries@)
    }
}

impl Context {
    /// No key occurs twice.
    #[verifier::type_invariant]
    spec fn distinct(self) -> bool {
        keys_distinct(entries_view(self.entries@))
    }
    /// A context without entries.
    pub fn new() -> (c: Context)
        ensures
            c@ == Seq::<(Seq<char>, Seq<char>)>::empty(),
            keys_distinct(c@),
    {
        let c = Context { entries: Vec::new() };
        assert(c@ =~= Seq::<(Seq<char>, Seq<char>)>::empty());
        c
    }

    /// A context with the one entry `key`, `value`.
    pub fn single(key: String, value: String) -> (c: Context)
        ensures
            c@ == seq![(key@, value@)],
            keys_distinct(c@),
    {
        let mut entries = Vec::new();
        entries.push((key, value));
        let c = Context { entries };
        assert(c@ =~= seq![(key@, value@)]);
        c
    }

    /// A context holding `entries`, in that order. Their keys must be
    /// distinct, as those of a map are (see `keys_are_distinct`).
    pub fn from_entries(entries: Vec<(String, String)>) -> (c: Context)
        requires
            keys_distinct(entries_view(entries@)),
        ensures
            c@ == entries_view(entries@),
    {
        Context { entries }
    }

    /// The entries, in order; no key occurs twice.
    pub fn entries(&self) -> (r: &Vec<(String, String)>)
        ensures
            entries_view(r@) == self@,
            keys_distinct(self@),
    {
        proof {
            use_type_invariant(self);
        }
        &self.entries
    }

    /// The value stored under `key`, if any.
    pub fn get(&self, key: &str) -> (r: Option<String>)
        ensures
            r matches Some(v) ==> lookup(self@, key@) == Some(v@),
            r is None ==> lookup(self@, key@) is None,
    {
        let k = String::from_str(key);
        let n = self.entries.len();
        let mut i: usize = 0;
        assert(self@.subrange(0, n as int) =~= self@);
        while i < n
            invariant
                i <= n,
                n == self.entries@.len(),
                k@ == key@,
                lookup(self@, key@) == lookup(self@.subrange(i as int, n as int), key@),
            decreases n - i,
        {
            let ghost rest = self@.subrange(i as int, n as int);
            assert(rest[0] == entry_view(self.entries@[i as int]));
            assert(rest.drop_first() =~= self@.subrange(i + 1, n as int));
            if self.entries[i].0 == k {
                return Some(self.entries[i].1.clone());
            }
            i = i + 1;
        }
        assert(self@.subrange(n as int, n as int).len() == 0);
        None
    }
}

/// The context with the one entry `key`, `value`.
pub open spec fn single_view(key: Seq<char>, value: Seq<char>) -> Seq<(Seq<char>, Seq<char>)> {
    seq![(key, value)]
}

} // verus!
