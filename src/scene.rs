use crate::id::{ImageId, SamplerId};
use vstd::prelude::*;

verus! {

/// Why an imported scene graph was refused.
#[derive(Clone, Copy, Debug, PartialEq, Eq, Structural)]
pub enum SceneError {
    /// Node `node` lists as child an index that is not a node.
    ChildOutOfRange { node: usize, child: usize },
    /// A material names an image that the scene does not have.
    ImageOutOfRange { image: usize },
    /// A material names a sampler that the scene does not have.
    SamplerOutOfRange { sampler: usize },
    /// A textured material names no sampler.
    MissingSampler,
}

/// Every child index of every node names a node.
pub open spec fn children_in_range(children: Seq<Vec<usize>>) -> bool {
    forall|i: int, j: int|
        0 <= i < children.len() && 0 <= j < children[i]@.len() ==> (#[trigger] children[i]@[j])
            < children.len()
}

/// The parent of node `c` among the first `n` nodes: the last of them that
/// lists `c` as a child.
pub open spec fn parent_among(children: Seq<Vec<usize>>, n: int, c: usize) -> Option<usize>
    decreases n,
{
    if n <= 0 {
        None
    } else if children[n - 1]@.contains(c) {
        Some((n - 1) as usize)
    } else {
        parent_among(children, n - 1, c)
    }
}

/// Parent links of the node graph whose child lists are `children`: the
/// parent of a node is the node that lists it as a child (the last one, if
/// several do); a node that no node lists has none.
pub fn link_nodes(children: &Vec<Vec<usize>>) -> (r: Result<Vec<Option<usize>>, SceneError>)
    ensures
        r is Ok <==> children_in_range(children@),
        r is Ok ==> {
            &&& r->Ok_0@.len() == children@.len()
            &&& forall|c: int|
                0 <= c < children@.len() ==> #[trigger] r->Ok_0@[c] == parent_among(
                    children@,
                    children@.len() as int,
                    c as usize,
                )
        },
        r is Err ==> exists|i: int, j: int|
            0 <= i < children@.len() && 0 <= j < children@[i]@.len() && r->Err_0 == (
            SceneError::ChildOutOfRange { node: i as usize, child: #[trigger] children@[i]@[j] })
                && children@[i]@[j] >= children@.len(),
{
    let n = children.len();
    let mut i: usize = 0;
    while i < n
        invariant
            n == children@.len(),
            i <= n,
            forall|a: int, b: int|
                0 <= a < i && 0 <= b < children@[a]@.len() ==> (#[trigger] children@[a]@[b]) < n,
        decreases n - i,
    {
        let mut j: usize = 0;
        while j < children[i].len()
            invariant
                n == children@.len(),
                i < n,
                j <= children@[i as int]@.len(),
                forall|a: int, b: int|
                    0 <= a < i && 0 <= b < children@[a]@.len() ==> (#[trigger] children@[a]@[b])
                        < n,
                forall|b: int| 0 <= b < j ==> (#[trigger] children@[i as int]@[b]) < n,
            decreases children@[i as int]@.len() - j,
        {
            if children[i][j] >= n {
                return Err(SceneError::ChildOutOfRange { node: i, child: children[i][j] });
            }
            j = j + 1;
        }
        i = i + 1;
    }
    let mut parents: Vec<Option<usize>> = Vec::new();
    let mut k: usize = 0;
    while k < n
        invariant
            k <= n,
            parents@.len() == k,
            forall|c: int| 0 <= c < k ==> #[trigger] parents@[c] == None::<usize>,
        decreases n - k,
    {
        parents.push(None);
        k = k + 1;
    }
    let mut i: usize = 0;
    while i < n
        invariant
            n == children@.len(),
            i <= n,
            parents@.len() == n,
            children_in_range(children@),
            forall|c: int| 0 <= c < n ==> #[trigger] parents@[c] == parent_among(children@, i as int, c as usize),
        decreases n - i,
    {
        let mut j: usize = 0;
        while j < children[i].len()
            invariant
                n == children@.len(),
                i < n,
                j <= children@[i as int]@.len(),
                parents@.len() == n,
                children_in_range(children@),
                forall|c: int|
                    0 <= c < n ==> #[trigger] parents@[c] == if children@[i as int]@.take(j as int).contains(
                        c as usize,
                    ) {
                        Some(i)
                    } else {
                        parent_among(children@, i as int, c as usize)
                    },
            decreases children@[i as int]@.len() - j,
        {
            let c = children[i][j];
            assert(c < n);
            parents.set(c, Some(i));
            proof {
                let t = children@[i as int]@.take(j + 1);
                assert(t =~= children@[i as int]@.take(j as int).push(c));
                assert forall|d: int| 0 <= d < n implies #[trigger] parents@[d] == if t.contains(
                    d as usize,
                ) {
                    Some(i)
                } else {
                    parent_among(children@, i as int, d as usize)
                } by {
                    if d != c as int {
                        if t.contains(d as usize) {
                            let w = choose|w: int| 0 <= w < t.len() && t[w] == d as usize;
                            assert(w < j);
                            assert(children@[i as int]@.take(j as int)[w] == d as usize);
                        }
                    } else {
                        assert(t[j as int] == c);
                    }
                }
            }
            j = j + 1;
        }
        proof {
            assert(children@[i as int]@.take(j as int) =~= children@[i as int]@);
        }
        i = i + 1;
    }
    Ok(parents)
}

/// Every parent link names a node.
pub open spec fn parents_in_range(parents: Seq<Option<usize>>) -> bool {
    forall|k: int| 0 <= k < parents.len() && (#[trigger] parents[k]) is Some ==> parents[k]->0 < parents.len()
}

/// The nodes among the first `k` that have no parent, in increasing order.
pub open spec fn roots_upto(parents: Seq<Option<usize>>, k: int) -> Seq<usize>
    decreases k,
{
    if k <= 0 {
        Seq::empty()
    } else if parents[k - 1] is None {
        roots_upto(parents, k - 1).push((k - 1) as usize)
    } else {
        roots_upto(parents, k - 1)
    }
}

/// The top-level nodes: those without a parent, in increasing order.
pub fn top_nodes(parents: &Vec<Option<usize>>) -> (r: Vec<usize>)
    ensures
        r@ == roots_upto(parents@, parents@.len() as int),
{
    let mut out: Vec<usize> = Vec::new();
    let mut k: usize = 0;
    while k < parents.len()
        invariant
            k <= parents@.len(),
            out@ == roots_upto(parents@, k as int),
        decreases parents@.len() - k,
    {
        if parents[k].is_none() {
            out.push(k);
        }
        k = k + 1;
    }
    out
}

/// The chain of nodes from a top-level node down to `i`, found by
/// following at most `fuel` parent links up from `i`; `None` when the
/// links go round for longer than that.
pub open spec fn root_path(parents: Seq<Option<usize>>, i: usize, fuel: nat) -> Option<Seq<usize>>
    decreases fuel,
{
    if fuel == 0 || i >= parents.len() {
        None
    } else {
        match parents[i as int] {
            None => Some(seq![i]),
            Some(p) => match root_path(parents, p, (fuel - 1) as nat) {
                Some(s) => Some(s.push(i)),
                None => None,
            },
        }
    }
}

/// `o` with `t` appended to the chain it holds.
pub open spec fn extend_path(o: Option<Seq<usize>>, t: Seq<usize>) -> Option<Seq<usize>> {
    match o {
        Some(s) => Some(s + t),
        None => None,
    }
}

/// `c` leads from a top-level node down to `i`, each node the parent of
/// the next.
pub open spec fn is_root_chain(parents: Seq<Option<usize>>, c: Seq<usize>, i: usize) -> bool {
    &&& c.len() > 0
    &&& c.last() == i
    &&& forall|k: int| 0 <= k < c.len() ==> (#[trigger] c[k]) < parents.len()
    &&& parents[c[0] as int] is None
    &&& forall|k: int| 0 < k < c.len() ==> parents[#[trigger] c[k] as int] == Some(c[k - 1])
}

/// A chain that `root_path` finds leads from a top-level node down to the
/// node it starts from, through parent links; so a world transform composed
/// along it multiplies every ancestor's local transform, root first.
pub proof fn lemma_root_path_is_chain(parents: Seq<Option<usize>>, i: usize, fuel: nat)
    requires
        root_path(parents, i, fuel) is Some,
    ensures
        is_root_chain(parents, root_path(parents, i, fuel)->0, i),
    decreases fuel,
{
    match parents[i as int] {
        None => {},
        Some(p) => {
            lemma_root_path_is_chain(parents, p, (fuel - 1) as nat);
            let s = root_path(parents, p, (fuel - 1) as nat)->0;
            let c = s.push(i);
            assert(c[0] == s[0]);
            assert forall|k: int| 0 < k < c.len() implies parents[#[trigger] c[k] as int] == Some(c[k - 1]) by {
                if k == c.len() - 1 {
                    assert(c[k - 1] == s.last());
                } else {
                    assert(c[k] == s[k]);
                    assert(c[k - 1] == s[k - 1]);
                }
            }
            assert forall|k: int| 0 <= k < c.len() implies (#[trigger] c[k]) < parents.len() by {
                if k < s.len() {
                    assert(c[k] == s[k]);
                }
            }
        },
    }
}

/// The chain from a top-level node down to node `i`, following at most as
/// many parent links as there are nodes; `None` when `i` hangs from a
/// cycle of parent links and so under no top-level node.
pub fn world_chain(parents: &Vec<Option<usize>>, i: usize) -> (r: Option<Vec<usize>>)
    requires
        parents_in_range(parents@),
        i < parents@.len(),
    ensures
        r is Some <==> root_path(parents@, i, parents@.len() as nat) is Some,
        r is Some ==> r->0@ == root_path(parents@, i, parents@.len() as nat)->0,
{
    let n = parents.len();
    let mut cur: usize = i;
    let mut tail: Vec<usize> = Vec::new();
    let mut fuel: usize = n;
    while fuel > 0
        invariant
            n == parents@.len(),
            parents_in_range(parents@),
            cur < n,
            fuel <= n,
            root_path(parents@, i, n as nat) == extend_path(
                root_path(parents@, cur, fuel as nat),
                tail@,
            ),
        decreases fuel,
    {
        match parents[cur] {
            None => {
                let ghost before = tail@;
                tail.insert(0, cur);
                assert(tail@ =~= seq![cur] + before);
                return Some(tail);
            },
            Some(p) => {
                proof {
                    let rp = root_path(parents@, p, (fuel - 1) as nat);
                    if rp is Some {
                        assert(rp->0.push(cur) + tail@ =~= rp->0 + (seq![cur] + tail@));
                    }
                }
                tail.insert(0, cur);
                cur = p;
                fuel = fuel - 1;
            },
        }
    }
    None
}

/// A node to spawn and its chain from its top-level node, root first.
pub struct SpawnNode {
    pub node: usize,
    pub chain: Vec<usize>,
}

/// The nodes among the first `k` that hang under a top-level node, in
/// increasing order, each with its chain.
pub open spec fn spawnable_upto(parents: Seq<Option<usize>>, k: int) -> Seq<(usize, Seq<usize>)>
    decreases k,
{
    if k <= 0 {
        Seq::empty()
    } else {
        match root_path(parents, (k - 1) as usize, parents.len() as nat) {
            Some(c) => spawnable_upto(parents, k - 1).push(((k - 1) as usize, c)),
            None => spawnable_upto(parents, k - 1),
        }
    }
}

/// The entities to spawn for a scene graph: one for each node under a
/// top-level node, in increasing node order, with the chain along which its
/// world transform is composed. Nodes hanging from a cycle of parent links
/// are under no top-level node and are left out.
pub fn spawn_plan(parents: &Vec<Option<usize>>) -> (r: Vec<SpawnNode>)
    requires
        parents_in_range(parents@),
    ensures
        r@.len() == spawnable_upto(parents@, parents@.len() as int).len(),
        forall|j: int|
            0 <= j < r@.len() ==> (#[trigger] r@[j]).node == spawnable_upto(
                parents@,
                parents@.len() as int,
            )[j].0 && r@[j].chain@ == spawnable_upto(parents@, parents@.len() as int)[j].1,
{
    let mut out: Vec<SpawnNode> = Vec::new();
    let mut k: usize = 0;
    while k < parents.len()
        invariant
            k <= parents@.len(),
            parents_in_range(parents@),
            out@.len() == spawnable_upto(parents@, k as int).len(),
            forall|j: int|
                0 <= j < out@.len() ==> (#[trigger] out@[j]).node == spawnable_upto(
                    parents@,
                    k as int,
                )[j].0 && out@[j].chain@ == spawnable_upto(parents@, k as int)[j].1,
        decreases parents@.len() - k,
    {
        match world_chain(parents, k) {
            Some(chain) => {
                out.push(SpawnNode { node: k, chain });
            },
            None => {},
        }
        k = k + 1;
    }
    out
}

/// The texture of a material: the image at `image` and the sampler at
/// `sampler` among the scene's images and samplers.
pub fn resolve_texture(
    images: &Vec<ImageId>,
    samplers: &Vec<SamplerId>,
    image: usize,
    sampler: Option<usize>,
) -> (r: Result<(ImageId, SamplerId), SceneError>)
    ensures
        r is Ok <==> image < images@.len() && sampler is Some && sampler->0 < samplers@.len(),
        r is Ok ==> r->Ok_0 == (images@[image as int], samplers@[sampler->0 as int]),
        image >= images@.len() ==> r == Err::<(ImageId, SamplerId), _>(
            SceneError::ImageOutOfRange { image },
        ),
        image < images@.len() && sampler is None ==> r == Err::<(ImageId, SamplerId), _>(
            SceneError::MissingSampler,
        ),
        image < images@.len() && sampler is Some && sampler->0 >= samplers@.len() ==> r == Err::<
            (ImageId, SamplerId),
            _,
        >(SceneError::SamplerOutOfRange { sampler: sampler->0 }),
{
    if image >= images.len() {
        return Err(SceneError::ImageOutOfRange { image });
    }
    match sampler {
        None => Err(SceneError::MissingSampler),
        Some(s) => {
            if s >= samplers.len() {
                Err(SceneError::SamplerOutOfRange { sampler: s })
            } else {
                Ok((images[image], samplers[s]))
            }
        },
    }
}

/// The images of an imported scene before their texels are uploaded: each
/// of the `count` images is `fallback`.
pub fn placeholder_images(count: usize, fallback: ImageId) -> (r: Vec<ImageId>)
    ensures
        r@.len() == count,
        forall|k: int| 0 <= k < count ==> #[trigger] r@[k] == fallback,
{
    let mut out: Vec<ImageId> = Vec::new();
    let mut k: usize = 0;
    while k < count
        invariant
            k <= count,
            out@.len() == k,
            forall|j: int| 0 <= j < k ==> #[trigger] out@[j] == fallback,
        decreases count - k,
    {
        out.push(fallback);
        k = k + 1;
    }
    out
}

} // verus!
