//! String-keyed label maps and the label sets that every subordinate object
//! carries.

use vstd::prelude::*;
use vstd::string::*;

verus! {

/// One key with its value.
#[derive(Debug, Clone)]
pub struct LabelEntry {
    pub key: String,
    pub value: String,
}

/// The map that a list of entries stands for: a later entry for a key
/// replaces an earlier one.
pub open spec fn entries_map(s: Seq<LabelEntry>) -> Map<Seq<char>, Seq<char>>
    decreases s.len(),
{
    if s.len() == 0 {
        Map::empty()
    } else {
        entries_map(s.drop_last()).insert(s.last().key@, s.last().value@)
    }
}

/// No key occurs twice in the list.
pub open spec fn distinct_keys(s: Seq<LabelEntry>) -> bool {
    forall|i: int, j: int| 0 <= i < j < s.len() ==> s[i].key@ != s[j].key@
}

/// A key that no entry holds is not in the map.
pub proof fn lemma_absent_key(s: Seq<LabelEntry>, key: Seq<char>)
    requires
        forall|i: int| 0 <= i < s.len() ==> s[i].key@ != key,
    ensures
        !entries_map(s).contains_key(key),
    decreases s.len(),
{
    if s.len() > 0 {
        lemma_absent_key(s.drop_last(), key);
    }
}

/// Where no key occurs twice, the entry that holds a key gives its value.
pub proof fn lemma_present_key(s: Seq<LabelEntry>, i: int)
    requires
        distinct_keys(s),
        0 <= i < s.len(),
    ensures
        entries_map(s).contains_key(s[i].key@),
        entries_map(s)[s[i].key@] == s[i].value@,
    decreases s.len(),
{
    if i < s.len() - 1 {
        lemma_present_key(s.drop_last(), i);
    }
}

/// Where no key occurs twice, writing a new value into the entry of a key is
/// an insertion into the map.
pub proof fn lemma_replace_entry(s: Seq<LabelEntry>, i: int, e: LabelEntry)
    requires
        distinct_keys(s),
        0 <= i < s.len(),
        s[i].key@ == e.key@,
    ensures
        distinct_keys(s.update(i, e)),
        entries_map(s.update(i, e)) == entries_map(s).insert(e.key@, e.value@),
    decreases s.len(),
{
    let t = s.update(i, e);
    if i == s.len() - 1 {
        assert(t.drop_last() == s.drop_last());
        assert(entries_map(t) =~= entries_map(s).insert(e.key@, e.value@));
    } else {
        lemma_replace_entry(s.drop_last(), i, e);
        assert(t.drop_last() == s.drop_last().update(i, e));
        assert(t.last() == s.last());
        assert(s.last().key@ != e.key@);
        assert(entries_map(t) =~= entries_map(s).insert(e.key@, e.value@));
    }
}

/// Puts `key` with `value` into the list: over the entry that holds the key,
/// or at the end where none does.
fn put_entry(entries: &mut Vec<LabelEntry>, key: String, value: String)
    requires
        distinct_keys(old(entries)@),
    ensures
        distinct_keys(final(entries)@),
        entries_map(final(entries)@) == entries_map(old(entries)@).insert(key@, value@),
{
    let mut i: usize = 0;
    while i < entries.len()
        invariant
            i <= entries.len(),
            entries@ == old(entries)@,
            distinct_keys(entries@),
            forall|j: int| 0 <= j < i ==> entries@[j].key@ != key@,
        decreases entries.len() - i,
    {
        if entries[i].key == key {
            let e = LabelEntry { key, value };
            proof {
                lemma_replace_entry(entries@, i as int, e);
            }
            entries.set(i, e);
            return ;
        }
        i += 1;
    }
    let e = LabelEntry { key, value };
    entries.push(e);
    assert(entries@.drop_last() == old(entries)@);
}

/// A map from label keys to label values, in which no key occurs twice.
#[derive(Debug)]
pub struct LabelMap {
    entries: Vec<LabelEntry>,
}

impl View for LabelMap {
    type V = Map<Seq<char>, Seq<char>>;

    closed spec fn view(&self) -> Map<Seq<char>, Seq<char>> {
        entries_map(self.entries@)
    }
}

impl DeepView for LabelMap {
    type V = Map<Seq<char>, Seq<char>>;

    open spec fn deep_view(&self) -> Map<Seq<char>, Seq<char>> {
        self@
    }
}

impl LabelMap {
    #[verifier::type_invariant]
    spec fn well_formed(self) -> bool {
        distinct_keys(self.entries@)
    }

    /// The empty map.
    pub fn new() -> (r: Self)
        ensures
            r@ == Map::<Seq<char>, Seq<char>>::empty(),
    {
        LabelMap { entries: Vec::new() }
    }

    /// Sets `key` to `value`, whatever the key held before.
    pub fn insert(&mut self, key: String, value: String)
        ensures
            final(self)@ == old(self)@.insert(key@, value@),
    {
        proof {
            use_type_invariant(&*self);
        }
        let mut entries: Vec<LabelEntry> = Vec::new();
        std::mem::swap(&mut entries, &mut self.entries);
        put_entry(&mut entries, key, value);
        self.entries = entries;
    }

    /// The value of `key`, if the map holds the key.
    pub fn get(&self, key: &str) -> (r: Option<&String>)
        ensures
            match r {
                Some(v) => self@.contains_key(key@) && v@ == self@[key@],
                None => !self@.contains_key(key@),
            },
    {
        proof {
            use_type_invariant(self);
        }
        let wanted = String::from_str(key);
        let mut i: usize = 0;
        while i < self.entries.len()
            invariant
                i <= self.entries.len(),
                wanted@ == key@,
                distinct_keys(self.entries@),
                forall|j: int| 0 <= j < i ==> self.entries@[j].key@ != key@,
            decreases self.entries.len() - i,
        {
            if self.entries[i].key == wanted {
                proof {
                    lemma_present_key(self.entries@, i as int);
                }
                return Some(&self.entries[i].value);
            }
            i += 1;
        }
        proof {
            lemma_absent_key(self.entries@, key@);
        }
        None
    }

    /// The entries, one for each key of the map.
    pub fn entries(&self) -> (r: &Vec<LabelEntry>)
        ensures
            distinct_keys(r@),
            entries_map(r@) == self@,
    {
        proof {
            use_type_invariant(self);
        }
        &self.entries
    }

    /// Sets every key of `other` to the value it has there.
    pub fn extend(&mut self, other: &LabelMap)
        ensures
            final(self)@ == old(self)@.union_prefer_right(other@),
    {
        let items = other.entries();
        let mut i: usize = 0;
        assert(items@.take(0) =~= Seq::<LabelEntry>::empty());
        assert(self@ =~= old(self)@.union_prefer_right(entries_map(items@.take(0))));
        while i < items.len()
            invariant
                i <= items.len(),
                entries_map(items@) == other@,
                self@ == old(self)@.union_prefer_right(entries_map(items@.take(i as int))),
            decreases items.len() - i,
        {
            self.insert(items[i].key.clone(), items[i].value.clone());
            proof {
                let next = items@.take(i + 1);
                assert(next.drop_last() == items@.take(i as int));
                assert(next.last() == items@[i as int]);
                assert(self@ =~= old(self)@.union_prefer_right(entries_map(next)));
            }
            i += 1;
        }
        assert(items@.take(items.len() as int) == items@);
    }

    /// A map of its own with the same keys and values.
    pub fn duplicate(&self) -> (r: Self)
        ensures
            r@ == self@,
    {
        let mut r = LabelMap::new();
        r.extend(self);
        assert(r@ =~= self@);
        r
    }
}

impl Clone for LabelMap {
    fn clone(&self) -> (r: Self)
        ensures
            r@ == self@,
    {
        self.duplicate()
    }
}

/// The labels by which subordinate objects select the replicas of the
/// cluster `name`.
pub open spec fn selector_label_map(name: Seq<char>) -> Map<Seq<char>, Seq<char>> {
    Map::<Seq<char>, Seq<char>>::empty().insert("app"@, "shazamq"@).insert(
        "shazamq.io/cluster"@,
        name,
    )
}

/// The labels that every subordinate object of the cluster `name` carries.
pub open spec fn common_label_map(name: Seq<char>) -> Map<Seq<char>, Seq<char>> {
    selector_label_map(name).insert("managed-by"@, "shazamq-operator"@)
}

/// The labels of a replica: what the user asked for, overridden by the
/// selector labels.
pub open spec fn pod_label_map(user: Option<Map<Seq<char>, Seq<char>>>, name: Seq<char>) -> Map<
    Seq<char>,
    Seq<char>,
> {
    match user {
        Some(m) => m.union_prefer_right(selector_label_map(name)),
        None => selector_label_map(name),
    }
}

/// The three label keys are three different strings.
pub proof fn lemma_label_keys_differ()
    ensures
        "app"@ != "shazamq.io/cluster"@,
        "app"@ != "managed-by"@,
        "shazamq.io/cluster"@ != "managed-by"@,
{
    reveal_strlit("app");
    reveal_strlit("shazamq.io/cluster");
    reveal_strlit("managed-by");
    assert("app"@.len() == 3);
    assert("shazamq.io/cluster"@.len() == 18);
    assert("managed-by"@.len() == 10);
}

/// The selector labels are some, and not all, of the common labels.
pub proof fn lemma_selector_within_common(name: Seq<char>)
    ensures
        selector_label_map(name).submap_of(common_label_map(name)),
        selector_label_map(name) != common_label_map(name),
        !selector_label_map(name).contains_key("managed-by"@),
        common_label_map(name).contains_key("managed-by"@),
{
    lemma_label_keys_differ();
    assert(!selector_label_map(name).contains_key("managed-by"@));
    assert(common_label_map(name).contains_key("managed-by"@));
}

/// Whatever labels the user asks for, a replica carries the selector labels
/// with their own values.
pub proof fn lemma_selector_never_overridden(user: Option<Map<Seq<char>, Seq<char>>>, name: Seq<char>)
    ensures
        selector_label_map(name).submap_of(pod_label_map(user, name)),
        pod_label_map(user, name).contains_key("app"@),
        pod_label_map(user, name)["app"@] == "shazamq"@,
        pod_label_map(user, name).contains_key("shazamq.io/cluster"@),
        pod_label_map(user, name)["shazamq.io/cluster"@] == name,
{
    lemma_label_keys_differ();
}

/// The selector labels of the cluster `name`.
pub fn selector_labels(name: &str) -> (r: LabelMap)
    ensures
        r@ == selector_label_map(name@),
        r@.contains_key("app"@) && r@["app"@] == "shazamq"@,
        r@.contains_key("shazamq.io/cluster"@) && r@["shazamq.io/cluster"@] == name@,
{
    proof {
        lemma_label_keys_differ();
    }
    let mut labels = LabelMap::new();
    labels.insert(String::from_str("app"), String::from_str("shazamq"));
    labels.insert(String::from_str("shazamq.io/cluster"), String::from_str(name));
    labels
}

/// The common labels of the cluster `name`.
pub fn common_labels(name: &str) -> (r: LabelMap)
    ensures
        r@ == common_label_map(name@),
        selector_label_map(name@).submap_of(r@),
        r@.contains_key("managed-by"@) && r@["managed-by"@] == "shazamq-operator"@,
{
    proof {
        lemma_selector_within_common(name@);
    }
    let mut labels = selector_labels(name);
    labels.insert(String::from_str("managed-by"), String::from_str("shazamq-operator"));
    labels
}

/// The labels of a replica of the cluster `name`: the user's labels first,
/// the selector labels over them.
pub fn pod_labels(user: &Option<LabelMap>, name: &str) -> (r: LabelMap)
    ensures
        r@ == pod_label_map(user.deep_view(), name@),
        selector_label_map(name@).submap_of(r@),
        r@.contains_key("app"@) && r@["app"@] == "shazamq"@,
        r@.contains_key("shazamq.io/cluster"@) && r@["shazamq.io/cluster"@] == name@,
{
    proof {
        lemma_selector_never_overridden(user.deep_view(), name@);
    }
    let selector = selector_labels(name);
    match user {
        Some(m) => {
            let mut labels = m.duplicate();
            labels.extend(&selector);
            labels
        },
        None => selector,
    }
}

} // verus!
