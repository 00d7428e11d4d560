//! Categorized descriptive labels attached to an article.

use vstd::prelude::*;

verus! {

/// The categories a descriptive tag can belong to.
#[derive(Clone, Copy, Debug, PartialEq, Eq, Structural)]
pub enum TagKind {
    Artist,
    Group,
    Parody,
    Character,
    Language,
    Other,
}

/// A categorized set of tags: pairs of kind and tag text, unique as
/// pairs, in insertion order.
#[derive(Debug, Clone)]
pub struct TagMap {
    pub entries: Vec<(TagKind, String)>,
}

impl TagMap {
    /// The pairs held, as kind and tag text.
    pub open spec fn view(&self) -> Seq<(TagKind, Seq<char>)> {
        self.entries@.map_values(|p: (TagKind, String)| (p.0, p.1@))
    }

    /// Whether the map holds `tag` under `kind`.
    pub open spec fn spec_has(&self, kind: TagKind, tag: Seq<char>) -> bool {
        exists|i: int| 0 <= i < self@.len() && self@[i] == (kind, tag)
    }

    /// Within a kind, tag texts are unique; equivalently, no pair
    /// occurs twice.
    pub open spec fn wf(&self) -> bool {
        forall|i: int, j: int| 0 <= i < j < self@.len() ==> self@[i] != self@[j]
    }

    /// An empty map.
    pub fn new() -> (r: TagMap)
        ensures
            r@ == Seq::<(TagKind, Seq<char>)>::empty(),
            r.wf(),
    {
        let r = TagMap { entries: Vec::new() };
        proof {
            assert(r@ =~= Seq::<(TagKind, Seq<char>)>::empty());
        }
        r
    }

    /// How many kind/tag pairs the map holds.
    pub fn len(&self) -> (r: usize)
        ensures
            r == self@.len(),
    {
        self.entries.len()
    }

    /// Whether the map holds `tag` under `kind`.
    pub fn has(&self, kind: TagKind, tag: &String) -> (r: bool)
        ensures
            r == self.spec_has(kind, tag@),
    {
        let mut i: usize = 0;
        while i < self.entries.len()
            invariant
                i <= self@.len(),
                forall|k: int| 0 <= k < i ==> self@[k] != (kind, tag@),
            decreases self@.len() - i,
        {
            let e = &self.entries[i];
            if e.0 == kind && e.1 == *tag {
                proof {
                    assert(self@[i as int] == (kind, tag@));
                }
                return true;
            }
            i = i + 1;
        }
        false
    }

    /// Insert `tag` under `kind` unless that pair is already present;
    /// keeps pairs unique and existing entries in place.
    pub fn add(&mut self, kind: TagKind, tag: String)
        requires
            old(self).wf(),
        ensures
            final(self).wf(),
            old(self).spec_has(kind, tag@) ==> final(self)@ == old(self)@,
            !old(self).spec_has(kind, tag@) ==> final(self)@ == old(self)@.push(
                (kind, tag@),
            ),
            final(self).spec_has(kind, tag@),
    {
        if !self.has(kind, &tag) {
            let ghost prev = self@;
            let ghost t = tag@;
            self.entries.push((kind, tag));
            proof {
                assert(self@ =~= prev.push((kind, t)));
                assert(self@[prev.len() as int] == (kind, t));
            }
        }
    }
}

} // verus!
