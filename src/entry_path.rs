use vstd::prelude::*;

verus! {

/// A filesystem path held as its sequence of components, each component as
/// the raw bytes of its name.
pub struct EntryPath {
    pub parts: Vec<Vec<u8>>,
}

impl View for EntryPath {
    type V = Seq<Seq<u8>>;

    open spec fn view(&self) -> Seq<Seq<u8>> {
        component_views(self.parts@)
    }
}

/// The byte sequences of a run of components.
pub open spec fn component_views(parts: Seq<Vec<u8>>) -> Seq<Seq<u8>> {
    Seq::new(parts.len(), |i: int| parts[i]@)
}

/// `prefix` is a leading run of the components of `path`.
pub open spec fn is_component_prefix(prefix: Seq<Seq<u8>>, path: Seq<Seq<u8>>) -> bool {
    prefix.len() <= path.len() && path.subrange(0, prefix.len() as int) == prefix
}

/// The components of `path` that follow `root`.
pub open spec fn relative_to(root: Seq<Seq<u8>>, path: Seq<Seq<u8>>) -> Seq<Seq<u8>> {
    path.subrange(root.len() as int, path.len() as int)
}

/// Where an entry of the source tree lands in the destination tree: the
/// destination root followed by the entry's path relative to the source root.
pub open spec fn mapped_destination(
    source_root: Seq<Seq<u8>>,
    destination_root: Seq<Seq<u8>>,
    entry: Seq<Seq<u8>>,
) -> Seq<Seq<u8>> {
    destination_root + relative_to(source_root, entry)
}

proof fn lemma_views_push(parts: Seq<Vec<u8>>, c: Vec<u8>)
    ensures
        component_views(parts.push(c)) == component_views(parts).push(c@),
{
    assert(component_views(parts.push(c)) =~= component_views(parts).push(c@));
}

fn copy_component(c: &Vec<u8>) -> (r: Vec<u8>)
    ensures
        r@ == c@,
{
    let mut r: Vec<u8> = Vec::with_capacity(c.len());
    let mut i: usize = 0;
    while i < c.len()
        invariant
            i <= c.len(),
            r@ == c@.subrange(0, i as int),
        decreases c.len() - i,
    {
        r.push(c[i]);
        i = i + 1;
    }
    assert(r@ == c@.subrange(0, c.len() as int));
    r
}

impl EntryPath {
    /// A path made of the given components.
    pub fn new(parts: Vec<Vec<u8>>) -> (r: EntryPath)
        ensures
            r.parts == parts,
    {
        EntryPath { parts }
    }

    /// The number of components.
    pub fn len(&self) -> (r: usize)
        ensures
            r == self@.len(),
    {
        self.parts.len()
    }

    /// A copy of this path.
    pub fn duplicate(&self) -> (r: EntryPath)
        ensures
            r@ == self@,
    {
        let mut parts: Vec<Vec<u8>> = Vec::with_capacity(self.parts.len());
        let mut i: usize = 0;
        while i < self.parts.len()
            invariant
                i <= self.parts.len(),
                component_views(parts@) == self@.subrange(0, i as int),
            decreases self.parts.len() - i,
        {
            let c = copy_component(&self.parts[i]);
            proof {
                lemma_views_push(parts@, c);
                assert(self@.subrange(0, i + 1) =~= self@.subrange(0, i as int).push(c@));
            }
            parts.push(c);
            i = i + 1;
        }
        let r = EntryPath { parts };
        assert(r@ == self@.subrange(0, self@.len() as int));
        r
    }

    /// Whether `root` is a leading run of this path's components. Comparison
    /// is by whole components: `/ab` does not start with `/a`.
    pub fn starts_with(&self, root: &EntryPath) -> (r: bool)
        ensures
            r == is_component_prefix(root@, self@),
    {
        if root.parts.len() > self.parts.len() {
            return false;
        }
        let mut i: usize = 0;
        while i < root.parts.len()
            invariant
                root@.len() <= self@.len(),
                i <= root.parts.len(),
                forall|j: int| 0 <= j < i ==> self@[j] == root@[j],
            decreases root.parts.len() - i,
        {
            let same = self.parts[i] == root.parts[i];
            if !same {
                assert(self@[i as int] != root@[i as int]);
                assert(self@.subrange(0, root@.len() as int)[i as int] != root@[i as int]);
                return false;
            }
            assert(self@[i as int] =~= root@[i as int]);
            i = i + 1;
        }
        assert(self@.subrange(0, root@.len() as int) =~= root@);
        true
    }

    /// This path with `root` taken off its front, or `None` where `root` is
    /// not a leading run of its components.
    pub fn strip_root(&self, root: &EntryPath) -> (r: Option<EntryPath>)
        ensures
            r is Some <==> is_component_prefix(root@, self@),
            r matches Some(rel) ==> rel@ == relative_to(root@, self@),
    {
        if !self.starts_with(root) {
            return None;
        }
        let mut parts: Vec<Vec<u8>> = Vec::with_capacity(self.parts.len() - root.parts.len());
        let mut i: usize = root.parts.len();
        while i < self.parts.len()
            invariant
                root@.len() <= i <= self@.len(),
                component_views(parts@) == self@.subrange(root@.len() as int, i as int),
            decreases self.parts.len() - i,
        {
            let c = copy_component(&self.parts[i]);
            proof {
                lemma_views_push(parts@, c);
                assert(self@.subrange(root@.len() as int, i + 1) =~= self@.subrange(
                    root@.len() as int,
                    i as int,
                ).push(c@));
            }
            parts.push(c);
            i = i + 1;
        }
        Some(EntryPath { parts })
    }

    /// This path followed by the components of `rel`.
    pub fn join(&self, rel: &EntryPath) -> (r: EntryPath)
        ensures
            r@ == self@ + rel@,
    {
        let mut out = self.duplicate();
        let mut i: usize = 0;
        while i < rel.parts.len()
            invariant
                i <= rel.parts.len(),
                out@ == self@ + rel@.subrange(0, i as int),
            decreases rel.parts.len() - i,
        {
            let c = copy_component(&rel.parts[i]);
            proof {
                lemma_views_push(out.parts@, c);
                assert(self@ + rel@.subrange(0, i + 1) =~= (self@ + rel@.subrange(
                    0,
                    i as int,
                )).push(c@));
            }
            out.parts.push(c);
            i = i + 1;
        }
        assert(rel@.subrange(0, rel@.len() as int) =~= rel@);
        out
    }
}

/// Every destination lies under the destination root, at the same relative
/// path as its entry under the source root: the tree's shape is mirrored.
pub proof fn lemma_relative_path_kept(
    source_root: Seq<Seq<u8>>,
    destination_root: Seq<Seq<u8>>,
    entry: Seq<Seq<u8>>,
)
    requires
        is_component_prefix(source_root, entry),
    ensures
        is_component_prefix(
            destination_root,
            mapped_destination(source_root, destination_root, entry),
        ),
        relative_to(destination_root, mapped_destination(source_root, destination_root, entry))
            == relative_to(source_root, entry),
{
    let m = mapped_destination(source_root, destination_root, entry);
    assert(m.subrange(0, destination_root.len() as int) =~= destination_root);
    assert(relative_to(destination_root, m) =~= relative_to(source_root, entry));
}

/// Two distinct entries under the source root never share a destination, so
/// no two tasks write the same path.
pub proof fn lemma_destinations_distinct(
    source_root: Seq<Seq<u8>>,
    destination_root: Seq<Seq<u8>>,
    a: Seq<Seq<u8>>,
    b: Seq<Seq<u8>>,
)
    requires
        is_component_prefix(source_root, a),
        is_component_prefix(source_root, b),
        a != b,
    ensures
        mapped_destination(source_root, destination_root, a) != mapped_destination(
            source_root,
            destination_root,
            b,
        ),
{
    lemma_relative_path_kept(source_root, destination_root, a);
    lemma_relative_path_kept(source_root, destination_root, b);
    if mapped_destination(source_root, destination_root, a) == mapped_destination(
        source_root,
        destination_root,
        b,
    ) {
        assert(a =~= source_root + relative_to(source_root, a));
        assert(b =~= source_root + relative_to(source_root, b));
    }
}

/// An entry below the source root keeps its name, extension included, at
/// its destination.
pub proof fn lemma_name_kept(
    source_root: Seq<Seq<u8>>,
    destination_root: Seq<Seq<u8>>,
    entry: Seq<Seq<u8>>,
)
    requires
        is_component_prefix(source_root, entry),
        entry.len() > source_root.len(),
    ensures
        mapped_destination(source_root, destination_root, entry).last() == entry.last(),
{
}

} // verus!
