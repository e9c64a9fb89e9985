//! Tags.
use vstd::prelude::*;

verus! {

/// A tag for categorizing tasks.
#[derive(Debug, Clone)]
pub struct Tag {
    /// Unique identifier
    pub id: String,
    /// Tag name (unique)
    pub name: String,
}

impl Tag {
    /// A copy of the tag.
    pub fn copy(&self) -> (r: Tag)
        ensures
            r == *self,
    {
        Tag { id: self.id.clone(), name: self.name.clone() }
    }
}

/// A copy of some tags.
pub fn copy_tags(v: &Vec<Tag>) -> (r: Vec<Tag>)
    ensures
        r@ == v@,
{
    let mut r: Vec<Tag> = Vec::new();
    let mut i: usize = 0;
    while i < v.len()
        invariant
            i <= v@.len(),
            r@ == v@.take(i as int),
        decreases v@.len() - i,
    {
        r.push(v[i].copy());
        assert(v@.take(i + 1) =~= v@.take(i as int).push(v@[i as int]));
        i = i + 1;
    }
    assert(v@.take(v@.len() as int) =~= v@);
    r
}

} // verus!
