//! A memo of render passes, one per output attachment format.

use vstd::prelude::*;

verus! {

/// The key of a render pass: the raw value of its single colour attachment's
/// format, or `None` for a pass without attachments.
pub type FormatKey = Option<i32>;

/// Values created once per [`FormatKey`] and handed out again on later requests.
pub struct RenderPassCache<V> {
    entries: Vec<(FormatKey, V)>,
}

/// The value stored last under `key` among `entries`.
pub open spec fn lookup<V>(entries: Seq<(FormatKey, V)>, key: FormatKey) -> Option<V>
    decreases entries.len(),
{
    if entries.len() == 0 {
        None
    } else if entries.last().0 == key {
        Some(entries.last().1)
    } else {
        lookup(entries.drop_last(), key)
    }
}

/// Whether two keys are equal.
fn same_key(a: FormatKey, b: FormatKey) -> (r: bool)
    ensures
        r == (a == b),
{
    match (a, b) {
        (None, None) => true,
        (Some(x), Some(y)) => x == y,
        _ => false,
    }
}

impl<V> RenderPassCache<V> {
    /// The value cached under `key`, if any.
    pub closed spec fn cached(&self, key: FormatKey) -> Option<V> {
        lookup(self.entries@, key)
    }

    /// An empty cache.
    pub fn new() -> (r: Self)
        ensures
            forall|k: FormatKey| r.cached(k) is None,
    {
        RenderPassCache { entries: Vec::new() }
    }

    /// The value cached under `key`, if any.
    pub fn get(&self, key: FormatKey) -> (r: Option<&V>)
        ensures
            r matches Some(v) ==> self.cached(key) == Some(*v),
            r is None ==> self.cached(key) is None,
    {
        let mut i: usize = self.entries.len();
        assert(self.entries@.subrange(0, i as int) =~= self.entries@);
        while i > 0
            invariant
                i <= self.entries@.len(),
                lookup(self.entries@, key) == lookup(self.entries@.subrange(0, i as int), key),
            decreases i,
        {
            assert(self.entries@.subrange(0, i as int).drop_last() =~= self.entries@.subrange(
                0,
                i - 1,
            ));
            if same_key(self.entries[i - 1].0, key) {
                return Some(&self.entries[i - 1].1);
            }
            i = i - 1;
        }
        None
    }

    /// Caches `value` under `key`, in place of what was cached there.
    pub fn insert(&mut self, key: FormatKey, value: V)
        ensures
            final(self).cached(key) == Some(value),
            forall|k: FormatKey| k != key ==> final(self).cached(k) == old(self).cached(k),
    {
        self.entries.push((key, value));
        assert(self.entries@.drop_last() =~= old(self).entries@);
    }
}

} // verus!
