use crate::gl::GLTextureParam;
use vstd::prelude::*;

verus! {

/// The number of pixel transfer buffers that a two-dimensional resource
/// rotates through.
pub const PBO_COUNT: usize = 3;

/// A pixel transfer buffer and the region of its texture that its content is
/// meant for.
#[derive(Debug, PartialEq, Eq, Structural, Clone, Copy)]
pub struct GLPbo {
    pub pbo: u32,
    pub xoffset: u32,
    pub yoffset: u32,
    pub subwidth: u32,
    pub subheight: u32,
    pub width: u32,
    pub height: u32,
}

impl GLPbo {
    /// No buffer.
    pub open spec fn none() -> GLPbo {
        GLPbo { pbo: 0, xoffset: 0, yoffset: 0, subwidth: 0, subheight: 0, width: 0, height: 0 }
    }
}

impl Default for GLPbo {
    fn default() -> (pbo: GLPbo)
        ensures
            pbo == GLPbo::none(),
    {
        GLPbo { pbo: 0, xoffset: 0, yoffset: 0, subwidth: 0, subheight: 0, width: 0, height: 0 }
    }
}

/// What the renderer knows of one texture on the device.
#[derive(Debug, Clone, Copy)]
pub struct GLResource {
    /// Two-dimensional, three-dimensional or cube map.
    pub target: u32,
    pub texture: u32,
    /// Width, height and depth in texels; the depth is 0 for a target that has
    /// none.
    pub resolution: [u32; 3],
    /// Playback position in nanoseconds.
    pub time: u64,
    pub pbos: [GLPbo; PBO_COUNT],
    /// The pixel transfer buffer that takes the next upload.
    pub pbo_idx: usize,
    pub params: GLTextureParam,
}

/// One row of the resource table.
#[derive(Debug, Clone, Copy)]
pub struct ResourceEntry {
    pub key: u64,
    pub resource: GLResource,
}

/// One of the first `n` rows has the key `key`.
pub open spec fn key_before(entries: Seq<ResourceEntry>, key: u64, n: int) -> bool {
    exists|i: int| 0 <= i < n && i < entries.len() && (#[trigger] entries[i]).key == key
}

/// Some row has the key `key`.
pub open spec fn has_key(entries: Seq<ResourceEntry>, key: u64) -> bool {
    key_before(entries, key, entries.len() as int)
}

/// Row `i` is the first with the key `key`.
pub open spec fn first_at(entries: Seq<ResourceEntry>, key: u64, i: int) -> bool {
    &&& 0 <= i < entries.len()
    &&& entries[i].key == key
    &&& !key_before(entries, key, i)
}

/// The position of the first row with the key `key`, where there is one.
pub open spec fn index_of(entries: Seq<ResourceEntry>, key: u64) -> int {
    choose|i: int| first_at(entries, key, i)
}

/// The resource under `key`.
pub open spec fn lookup(entries: Seq<ResourceEntry>, key: u64) -> Option<GLResource> {
    if has_key(entries, key) {
        Some(entries[index_of(entries, key)].resource)
    } else {
        None
    }
}

/// The table with `resource` under `key`: in place of what was there, or in a
/// new last row.
pub open spec fn upsert(entries: Seq<ResourceEntry>, key: u64, resource: GLResource) -> Seq<
    ResourceEntry,
> {
    if has_key(entries, key) {
        entries.update(index_of(entries, key), ResourceEntry { key, resource })
    } else {
        entries.push(ResourceEntry { key, resource })
    }
}

/// The table without the row of `key`.
pub open spec fn without(entries: Seq<ResourceEntry>, key: u64) -> Seq<ResourceEntry> {
    if has_key(entries, key) {
        entries.remove(index_of(entries, key))
    } else {
        entries
    }
}

/// There is only one first row of a key.
pub proof fn lemma_first_is_index(entries: Seq<ResourceEntry>, key: u64, i: int)
    requires
        first_at(entries, key, i),
    ensures
        has_key(entries, key),
        index_of(entries, key) == i,
{
    let j = index_of(entries, key);
    assert(first_at(entries, key, j));
    if j < i {
        assert(key_before(entries, key, i));
    } else if i < j {
        assert(key_before(entries, key, j));
    }
}

/// A key that some row has, has a first row.
pub proof fn lemma_has_key_has_first(entries: Seq<ResourceEntry>, key: u64)
    requires
        has_key(entries, key),
    ensures
        first_at(entries, key, index_of(entries, key)),
{
    lemma_least_key(entries, key, entries.len() as int);
}

proof fn lemma_least_key(entries: Seq<ResourceEntry>, key: u64, n: int)
    requires
        key_before(entries, key, n),
    ensures
        exists|i: int| first_at(entries, key, i),
    decreases n,
{
    let w = choose|i: int| 0 <= i < n && i < entries.len() && (#[trigger] entries[i]).key == key;
    if key_before(entries, key, w) {
        lemma_least_key(entries, key, w);
    } else {
        assert(first_at(entries, key, w));
    }
}

/// The textures on the device, each under its identity key.
#[derive(Debug)]
pub struct ResourceTable {
    pub entries: Vec<ResourceEntry>,
}

impl ResourceTable {
    pub fn new() -> (table: ResourceTable)
        ensures
            table.entries@.len() == 0,
    {
        ResourceTable { entries: Vec::new() }
    }

    /// The position of the row of `key`.
    pub fn find(&self, key: u64) -> (found: Option<usize>)
        ensures
            found is Some == has_key(self.entries@, key),
            found is Some ==> found->0 == index_of(self.entries@, key) && first_at(
                self.entries@,
                key,
                found->0 as int,
            ),
    {
        let mut i: usize = 0;
        while i < self.entries.len()
            invariant
                i <= self.entries.len(),
                !key_before(self.entries@, key, i as int),
            decreases self.entries.len() - i,
        {
            if self.entries[i].key == key {
                proof {
                    lemma_first_is_index(self.entries@, key, i as int);
                }
                return Some(i);
            }
            i = i + 1;
        }
        None
    }

    pub fn get(&self, key: u64) -> (found: Option<GLResource>)
        ensures
            found == lookup(self.entries@, key),
    {
        match self.find(key) {
            Some(i) => Some(self.entries[i].resource),
            None => None,
        }
    }

    pub fn contains(&self, key: u64) -> (found: bool)
        ensures
            found == has_key(self.entries@, key),
    {
        self.find(key).is_some()
    }

    /// Puts `resource` under `key`, in place of what was there.
    pub fn insert(&mut self, key: u64, resource: GLResource)
        ensures
            final(self).entries@ == upsert(old(self).entries@, key, resource),
    {
        match self.find(key) {
            Some(i) => {
                self.entries[i] = ResourceEntry { key, resource };
            },
            None => {
                self.entries.push(ResourceEntry { key, resource });
            },
        }
    }

    /// Takes the row of `key` out of the table.
    pub fn remove(&mut self, key: u64) -> (removed: Option<GLResource>)
        ensures
            removed == lookup(old(self).entries@, key),
            final(self).entries@ == without(old(self).entries@, key),
    {
        match self.find(key) {
            Some(i) => {
                let entry = self.entries.remove(i);
                Some(entry.resource)
            },
            None => None,
        }
    }
}


/// The keys of the rows, in row order.
pub open spec fn keys_of(entries: Seq<ResourceEntry>) -> Seq<u64> {
    Seq::new(entries.len(), |i: int| entries[i].key)
}

/// Where a key stands depends on the keys of the rows alone.
pub proof fn lemma_same_keys_same_places(a: Seq<ResourceEntry>, b: Seq<ResourceEntry>, key: u64)
    requires
        keys_of(a) == keys_of(b),
    ensures
        has_key(a, key) == has_key(b, key),
        has_key(a, key) ==> index_of(a, key) == index_of(b, key),
{
    assert(a.len() == keys_of(a).len());
    assert(b.len() == keys_of(b).len());
    assert forall|i: int| 0 <= i < a.len() implies (#[trigger] a[i]).key == b[i].key by {
        assert(keys_of(a)[i] == a[i].key);
        assert(keys_of(b)[i] == b[i].key);
    }
    assert forall|n: int| #[trigger] key_before(a, key, n) == key_before(b, key, n) by {
        if key_before(a, key, n) {
            let w = choose|w: int| 0 <= w < n && w < a.len() && (#[trigger] a[w]).key == key;
            assert(b[w].key == key);
        }
        if key_before(b, key, n) {
            let w = choose|w: int| 0 <= w < n && w < b.len() && (#[trigger] b[w]).key == key;
            assert(a[w].key == key);
        }
    }
    if has_key(a, key) {
        lemma_has_key_has_first(a, key);
        let i = index_of(a, key);
        assert(first_at(b, key, i));
        lemma_first_is_index(b, key, i);
    }
}

/// What was put under a key is found under it.
pub proof fn lemma_upsert_same(entries: Seq<ResourceEntry>, key: u64, resource: GLResource)
    ensures
        lookup(upsert(entries, key, resource), key) == Some(resource),
{
    let after = upsert(entries, key, resource);
    if has_key(entries, key) {
        lemma_has_key_has_first(entries, key);
        let i = index_of(entries, key);
        assert(keys_of(after) =~= keys_of(entries));
        lemma_same_keys_same_places(entries, after, key);
    } else {
        let n = entries.len() as int;
        assert(after[n].key == key);
        assert(!key_before(after, key, n)) by {
            if key_before(after, key, n) {
                let w = choose|w: int|
                    0 <= w < n && w < after.len() && (#[trigger] after[w]).key == key;
                assert(entries[w].key == key);
                assert(key_before(entries, key, n));
            }
        }
        assert(first_at(after, key, n));
        lemma_first_is_index(after, key, n);
    }
}

/// Putting something under a key leaves what is found under other keys.
pub proof fn lemma_upsert_other(
    entries: Seq<ResourceEntry>,
    key: u64,
    resource: GLResource,
    other: u64,
)
    requires
        other != key,
    ensures
        lookup(upsert(entries, key, resource), other) == lookup(entries, other),
{
    let after = upsert(entries, key, resource);
    if has_key(entries, key) {
        lemma_has_key_has_first(entries, key);
        assert(keys_of(after) =~= keys_of(entries));
        lemma_same_keys_same_places(entries, after, other);
        if has_key(entries, other) {
            lemma_has_key_has_first(entries, other);
        }
    } else {
        let n = entries.len() as int;
        assert forall|m: int| m <= n implies #[trigger] key_before(after, other, m)
            == key_before(entries, other, m) by {
            if key_before(after, other, m) {
                let w = choose|w: int|
                    0 <= w < m && w < after.len() && (#[trigger] after[w]).key == other;
                assert(entries[w].key == other);
            }
            if key_before(entries, other, m) {
                let w = choose|w: int|
                    0 <= w < m && w < entries.len() && (#[trigger] entries[w]).key == other;
                assert(after[w].key == other);
            }
        }
        assert(has_key(after, other) == has_key(entries, other)) by {
            if has_key(after, other) {
                let w = choose|w: int|
                    0 <= w < after.len() && w < after.len() && (#[trigger] after[w]).key == other;
                assert(w < n);
                assert(entries[w].key == other);
                assert(key_before(entries, other, n));
            }
            if has_key(entries, other) {
                assert(key_before(after, other, n));
                let w = choose|w: int|
                    0 <= w < n && w < after.len() && (#[trigger] after[w]).key == other;
                assert(key_before(after, other, after.len() as int));
            }
        }
        if has_key(entries, other) {
            lemma_has_key_has_first(entries, other);
            let i = index_of(entries, other);
            assert(after[i].key == other);
            assert(first_at(after, other, i));
            lemma_first_is_index(after, other, i);
        }
    }
}


/// Makes the three pixel transfer buffers of a resource from a list of
/// three.
pub fn copy_into_array(slice: &[GLPbo]) -> (pbos: [GLPbo; PBO_COUNT])
    requires
        slice@.len() == PBO_COUNT,
    ensures
        pbos@ == slice@,
{
    let pbos = [slice[0], slice[1], slice[2]];
    assert(pbos@ =~= slice@);
    pbos
}

} // verus!
