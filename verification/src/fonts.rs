//! The font cache: loaded fonts, kept for as long as the cache lives and
//! found again by the path of the font file and the point size.

use vstd::prelude::*;

verus! {

/// What a cached font is found by: the characters of the font file's path
/// and the point size.
pub type FontKey = (Seq<char>, i32);

/// The cache once `font` has been offered for `key`: a font that is cached
/// under the key stays, and the offer is taken only where there was none.
pub open spec fn keep_or_insert<F>(cache: Map<FontKey, F>, key: FontKey, font: F) -> Map<
    FontKey,
    F,
> {
    if cache.contains_key(key) {
        cache
    } else {
        cache.insert(key, font)
    }
}

struct FontEntry<F> {
    path: String,
    size: i32,
    font: F,
}

/// A cache of loaded fonts of type `F`. Nothing is ever evicted or
/// replaced. To contracts it is the map from each cached key to its font.
pub struct FontCache<F> {
    entries: Vec<FontEntry<F>>,
}

spec fn key_at<F>(entries: Seq<FontEntry<F>>, i: int) -> FontKey {
    (entries[i].path@, entries[i].size)
}

spec fn has<F>(entries: Seq<FontEntry<F>>, key: FontKey) -> bool {
    exists|i: int| 0 <= i < entries.len() && key_at(entries, i) == key
}

spec fn index_of<F>(entries: Seq<FontEntry<F>>, key: FontKey) -> int {
    choose|i: int| 0 <= i < entries.len() && key_at(entries, i) == key
}

/// No key is held twice.
spec fn distinct<F>(entries: Seq<FontEntry<F>>) -> bool {
    forall|i: int, j: int| 0 <= i < j < entries.len() ==> key_at(entries, i) != key_at(entries, j)
}

spec fn as_map<F>(entries: Seq<FontEntry<F>>) -> Map<FontKey, F> {
    Map::new(|key: FontKey| has(entries, key), |key: FontKey| entries[index_of(entries, key)].font)
}

proof fn lemma_present<F>(entries: Seq<FontEntry<F>>, i: int)
    requires
        distinct(entries),
        0 <= i < entries.len(),
    ensures
        as_map(entries).contains_key(key_at(entries, i)),
        as_map(entries)[key_at(entries, i)] == entries[i].font,
        index_of(entries, key_at(entries, i)) == i,
{
    let key = key_at(entries, i);
    assert(has(entries, key));
    let found = index_of(entries, key);
    assert(0 <= found < entries.len() && key_at(entries, found) == key);
    if found < i {
        assert(key_at(entries, found) != key_at(entries, i));
    } else if i < found {
        assert(key_at(entries, i) != key_at(entries, found));
    }
}

proof fn lemma_absent<F>(entries: Seq<FontEntry<F>>, key: FontKey)
    requires
        forall|i: int| 0 <= i < entries.len() ==> key_at(entries, i) != key,
    ensures
        !as_map(entries).contains_key(key),
{
}

/// Appending an entry with a new key adds it to the map.
proof fn lemma_append<F>(before: Seq<FontEntry<F>>, entry: FontEntry<F>)
    requires
        distinct(before),
        forall|i: int| 0 <= i < before.len() ==> key_at(before, i) != (entry.path@, entry.size),
    ensures
        distinct(before.push(entry)),
        as_map(before.push(entry)) == as_map(before).insert(
            (entry.path@, entry.size),
            entry.font,
        ),
{
    let after = before.push(entry);
    let key = (entry.path@, entry.size);
    let n = before.len() as int;
    assert forall|j: int| 0 <= j < n implies key_at(after, j) == key_at(before, j) by {}
    assert(key_at(after, n) == key);
    assert(distinct(after)) by {
        assert forall|a: int, b: int| 0 <= a < b < after.len() implies key_at(after, a) != key_at(
            after,
            b,
        ) by {
            if b < n {
                assert(key_at(before, a) != key_at(before, b));
            }
        }
    }
    lemma_absent(before, key);
    lemma_present(after, n);
    assert forall|k: FontKey| k != key implies has(after, k) == has(before, k) by {
        if has(before, k) {
            let j = index_of(before, k);
            assert(key_at(after, j) == k);
        }
        if has(after, k) {
            let j = index_of(after, k);
            assert(key_at(before, j) == k);
        }
    }
    assert forall|k: FontKey| k != key && #[trigger] as_map(after).contains_key(k) implies as_map(
        after,
    )[k] == as_map(before)[k] by {
        let j = index_of(after, k);
        assert(key_at(after, j) == k);
        lemma_present(after, j);
        lemma_present(before, j);
    }
    assert(as_map(after) =~= as_map(before).insert(key, entry.font));
}

/// Where in the table the key is held, if it is.
fn position<F>(entries: &Vec<FontEntry<F>>, path: &String, size: i32) -> (r: Option<usize>)
    ensures
        r matches Some(i) ==> i < entries@.len() && key_at(entries@, i as int) == (path@, size),
        r is None ==> forall|i: int|
            0 <= i < entries@.len() ==> key_at(entries@, i) != (path@, size),
{
    let mut i: usize = 0;
    while i < entries.len()
        invariant
            i <= entries@.len(),
            forall|j: int| 0 <= j < i ==> key_at(entries@, j) != (path@, size),
        decreases entries@.len() - i,
    {
        if entries[i].size == size && entries[i].path == *path {
            return Some(i);
        }
        i += 1;
    }
    None
}

impl<F> View for FontCache<F> {
    type V = Map<FontKey, F>;

    closed spec fn view(&self) -> Map<FontKey, F> {
        as_map(self.entries@)
    }
}

impl<F> FontCache<F> {
    #[verifier::type_invariant]
    spec fn inv(&self) -> bool {
        distinct(self.entries@)
    }

    /// An empty cache.
    pub fn new() -> (cache: FontCache<F>)
        ensures
            cache@ == Map::<FontKey, F>::empty(),
    {
        let cache = FontCache { entries: Vec::new() };
        assert(cache@ =~= Map::<FontKey, F>::empty());
        cache
    }

    /// The font cached under the given path and point size, if there is
    /// one.
    pub fn get(&self, path: &str, size: i32) -> (r: Option<&F>)
        ensures
            r is Some <==> self@.contains_key((path@, size)),
            r matches Some(font) ==> *font == self@[(path@, size)],
    {
        let wanted = path.to_owned();
        proof {
            use_type_invariant(self);
        }
        match position(&self.entries, &wanted, size) {
            Some(i) => {
                proof {
                    lemma_present(self.entries@, i as int);
                }
                Some(&self.entries[i].font)
            },
            None => {
                proof {
                    lemma_absent(self.entries@, (path@, size));
                }
                None
            },
        }
    }

    /// Caches `font` under the given path and point size, unless a font is
    /// cached under that key already: that font stays, and `font` is
    /// dropped. Every other entry stays as well.
    pub fn insert(&mut self, path: &str, size: i32, font: F)
        ensures
            final(self)@ == keep_or_insert(old(self)@, (path@, size), font),
    {
        let wanted = path.to_owned();
        proof {
            use_type_invariant(&*self);
        }
        let mut entries: Vec<FontEntry<F>> = Vec::new();
        core::mem::swap(&mut self.entries, &mut entries);
        let ghost before = entries@;
        match position(&entries, &wanted, size) {
            Some(i) => {
                proof {
                    lemma_present(before, i as int);
                }
            },
            None => {
                let entry = FontEntry { path: wanted, size, font };
                proof {
                    lemma_absent(before, (path@, size));
                    lemma_append(before, entry);
                }
                entries.push(entry);
            },
        }
        self.entries = entries;
    }
}

/// Once a font has been offered for a key, a lookup with that key finds a
/// font: the one that was cached before, or else the one offered. Lookups
/// with any other key give what they gave before, and nothing that was
/// cached is lost or replaced.
pub proof fn lemma_insert_then_hit<F>(cache: Map<FontKey, F>, key: FontKey, font: F, other: FontKey)
    ensures
        keep_or_insert(cache, key, font).contains_key(key),
        keep_or_insert(cache, key, font)[key] == (if cache.contains_key(key) {
            cache[key]
        } else {
            font
        }),
        other != key ==> keep_or_insert(cache, key, font).contains_key(other)
            == cache.contains_key(other),
        cache.contains_key(other) ==> keep_or_insert(cache, key, font).contains_key(other)
            && keep_or_insert(cache, key, font)[other] == cache[other],
        keep_or_insert(keep_or_insert(cache, key, font), key, font) == keep_or_insert(
            cache,
            key,
            font,
        ),
{
}

} // verus!
