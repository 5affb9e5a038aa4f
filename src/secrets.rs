use vstd::prelude::*;
use vstd::string::StrSliceExecFns;

use crate::error::ApiError;

verus! {

/// The final segment of a hierarchical parameter name: what follows the last
/// `/`, or the whole name when it holds none.
pub open spec fn leaf_of(name: Seq<char>) -> Seq<char>
    decreases name.len(),
{
    if name.len() == 0 {
        name
    } else if name.last() == '/' {
        Seq::empty()
    } else {
        leaf_of(name.drop_last()).push(name.last())
    }
}

proof fn lemma_leaf_from(s: Seq<char>, i: int)
    requires
        0 <= i <= s.len(),
        forall|j: int| i <= j < s.len() ==> s[j] != '/',
        i == 0 || s[i - 1] == '/',
    ensures
        leaf_of(s) == s.subrange(i, s.len() as int),
    decreases s.len(),
{
    if s.len() == i {
        if i > 0 {
            assert(s.last() == '/');
        }
        assert(s.subrange(i, s.len() as int) =~= Seq::<char>::empty());
    } else {
        let t = s.drop_last();
        lemma_leaf_from(t, i);
        assert(s.subrange(i, s.len() as int) =~= t.subrange(i, t.len() as int).push(s.last()));
    }
}

/// A parameter stored under `<prefix>/<key>` comes back as `key`, whatever the
/// depth of the prefix, as long as the key itself holds no `/`.
pub proof fn lemma_leaf_of_prefixed(prefix: Seq<char>, key: Seq<char>)
    requires
        forall|j: int| 0 <= j < key.len() ==> key[j] != '/',
    ensures
        leaf_of(prefix + seq!['/'] + key) == key,
{
    let s = prefix + seq!['/'] + key;
    let i: int = prefix.len() as int + 1;
    assert forall|j: int| i <= j < s.len() implies s[j] != '/' by {
        assert(s[j] == key[j - i]);
    }
    assert(s[i - 1] == '/');
    lemma_leaf_from(s, i);
    assert(s.subrange(i, s.len() as int) =~= key);
}

/// The leaf key of a parameter name.
pub fn leaf_key(name: &str) -> (r: String)
    ensures
        r@ == leaf_of(name@),
{
    let n = name.unicode_len();
    let mut i: usize = n;
    while i > 0 && name.get_char(i - 1) != '/'
        invariant
            i <= n,
            n == name@.len(),
            forall|j: int| i <= j < n ==> name@[j] != '/',
        decreases i,
    {
        i = i - 1;
    }
    proof {
        lemma_leaf_from(name@, i as int);
    }
    String::from_str(name.substring_char(i, n))
}

/// Character-wise equality of two strings.
pub fn str_eq(a: &str, b: &str) -> (r: bool)
    ensures
        r == (a@ == b@),
{
    let n = a.unicode_len();
    if n != b.unicode_len() {
        return false;
    }
    let mut i: usize = 0;
    while i < n
        invariant
            n == a@.len(),
            n == b@.len(),
            i <= n,
            forall|j: int| 0 <= j < i ==> a@[j] == b@[j],
        decreases n - i,
    {
        if a.get_char(i) != b.get_char(i) {
            return false;
        }
        i = i + 1;
    }
    assert(a@ =~= b@);
    true
}

/// The map that a list of entries stands for: a later entry for a key
/// replaces an earlier one.
pub open spec fn entries_map(e: Seq<(String, String)>) -> Map<Seq<char>, Seq<char>>
    decreases e.len(),
{
    if e.len() == 0 {
        Map::empty()
    } else {
        entries_map(e.drop_last()).insert(e.last().0@, e.last().1@)
    }
}

/// The secret set that a bulk read of parameters yields: each parameter with
/// both a name and a value is stored under the leaf of its name, a later one
/// replacing an earlier one of the same leaf.
pub open spec fn parameters_map(p: Seq<(Option<String>, Option<String>)>) -> Map<Seq<char>, Seq<char>>
    decreases p.len(),
{
    if p.len() == 0 {
        Map::empty()
    } else {
        let rest = parameters_map(p.drop_last());
        match p.last() {
            (Some(name), Some(value)) => rest.insert(leaf_of(name@), value@),
            _ => rest,
        }
    }
}

proof fn lemma_entries_absent(e: Seq<(String, String)>, k: Seq<char>)
    requires
        forall|j: int| 0 <= j < e.len() ==> e[j].0@ != k,
    ensures
        !entries_map(e).contains_key(k),
    decreases e.len(),
{
    if e.len() > 0 {
        lemma_entries_absent(e.drop_last(), k);
    }
}

proof fn lemma_entries_last(e: Seq<(String, String)>, k: Seq<char>, i: int)
    requires
        0 <= i < e.len(),
        e[i].0@ == k,
        forall|j: int| i < j < e.len() ==> e[j].0@ != k,
    ensures
        entries_map(e).contains_key(k),
        entries_map(e)[k] == e[i].1@,
    decreases e.len(),
{
    if i < e.len() - 1 {
        lemma_entries_last(e.drop_last(), k, i);
    }
}

/// Named configuration values, keyed by the leaf of their parameter name.
pub struct SecretSet {
    entries: Vec<(String, String)>,
}

impl View for SecretSet {
    type V = Map<Seq<char>, Seq<char>>;

    closed spec fn view(&self) -> Map<Seq<char>, Seq<char>> {
        entries_map(self.entries@)
    }
}

impl SecretSet {
    /// A set with no secrets.
    pub fn new() -> (r: SecretSet)
        ensures
            r@ == Map::<Seq<char>, Seq<char>>::empty(),
    {
        SecretSet { entries: Vec::new() }
    }

    /// Stores `value` under `key`, replacing any earlier value of that key.
    pub fn insert(&mut self, key: String, value: String)
        ensures
            final(self)@ == old(self)@.insert(key@, value@),
    {
        self.entries.push((key, value));
        assert(self.entries@.drop_last() =~= old(self).entries@);
    }

    /// The value stored under `key`, if any.
    pub fn get(&self, key: &str) -> (r: Option<&String>)
        ensures
            r.is_some() == self@.contains_key(key@),
            r.is_some() ==> r.unwrap()@ == self@[key@],
    {
        let mut i: usize = self.entries.len();
        while i > 0
            invariant
                i <= self.entries@.len(),
                forall|j: int| i <= j < self.entries@.len() ==> self.entries@[j].0@ != key@,
            decreases i,
        {
            if str_eq(self.entries[i - 1].0.as_str(), key) {
                proof {
                    lemma_entries_last(self.entries@, key@, i - 1);
                }
                return Some(&self.entries[i - 1].1);
            }
            i = i - 1;
        }
        proof {
            lemma_entries_absent(self.entries@, key@);
        }
        None
    }

    /// The value stored under `key`, or `MissingSecret(key)`.
    pub fn require(&self, key: &str) -> (r: Result<String, ApiError>)
        ensures
            self@.contains_key(key@) ==> (r matches Ok(v) && v@ == self@[key@]),
            !self@.contains_key(key@) ==> (r matches Err(ApiError::MissingSecret(k)) && k@ == key@),
    {
        match self.get(key) {
            Some(v) => Ok(v.clone()),
            None => Err(ApiError::MissingSecret(String::from_str(key))),
        }
    }
}

/// A parameter read under `<prefix>/<key>` is found in the secret set under
/// `key`, whatever the depth of the prefix.
pub proof fn lemma_parameter_round_trip(
    prefix: Seq<char>,
    key: Seq<char>,
    name: String,
    value: String,
)
    requires
        forall|j: int| 0 <= j < key.len() ==> key[j] != '/',
        name@ == prefix + seq!['/'] + key,
    ensures
        parameters_map(seq![(Some(name), Some(value))]).contains_key(key),
        parameters_map(seq![(Some(name), Some(value))])[key] == value@,
{
    lemma_leaf_of_prefixed(prefix, key);
    let p = seq![(Some(name), Some(value))];
    assert(p.drop_last() =~= Seq::<(Option<String>, Option<String>)>::empty());
}

/// Builds the secret set from the parameters of one bulk read, keying each by
/// the leaf of its name and skipping those that lack a name or a value.
pub fn secrets_from_parameters(params: Vec<(Option<String>, Option<String>)>) -> (r: SecretSet)
    ensures
        r@ == parameters_map(params@),
{
    let mut set = SecretSet::new();
    let mut i: usize = 0;
    while i < params.len()
        invariant
            i <= params@.len(),
            set@ == parameters_map(params@.take(i as int)),
        decreases params@.len() - i,
    {
        assert(params@.take(i as int + 1).drop_last() =~= params@.take(i as int));
        match &params[i] {
            (Some(name), Some(value)) => {
                let key = leaf_key(name.as_str());
                set.insert(key, value.clone());
            },
            _ => {},
        }
        i = i + 1;
    }
    assert(params@.take(params@.len() as int) =~= params@);
    set
}

} // verus!
