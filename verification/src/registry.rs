//! The node registry and the selector that picks a node for each call.
//!
//! The registry is the ordered list of upstream nodes of one generation.
//! Positions are dense and stable: the node at position `i` has index `i`
//! until the registry is replaced, which starts a new generation.
use vstd::prelude::*;

verus! {

/// One upstream node.
pub struct Rpc {
    /// The node's position in the registry.
    pub index: usize,
    /// Where the node's WebSocket endpoint is, if it has one.
    pub ws_url: Option<String>,
    /// The latest round-trip time in nanoseconds; `None` before the first.
    pub latency: Option<u64>,
    /// The health marker, kept for whoever scores the nodes.
    pub healthy: bool,
}

/// The content of a node descriptor.
pub struct Node {
    pub index: usize,
    pub ws_url: Option<Seq<char>>,
    pub latency: Option<u64>,
    pub healthy: bool,
}

impl Node {
    /// The latency by which the selector ranks a node. A node without a
    /// sample is not held back by it: it ranks as if it answered at once.
    pub open spec fn effective_latency(self) -> u64 {
        match self.latency {
            Some(d) => d,
            None => 0,
        }
    }
}

impl View for Rpc {
    type V = Node;

    open spec fn view(&self) -> Node {
        Node {
            index: self.index,
            ws_url: match self.ws_url {
                Some(url) => Some(url@),
                None => None,
            },
            latency: self.latency,
            healthy: self.healthy,
        }
    }
}

impl Rpc {
    /// A healthy node at `ws_url` without a latency sample.
    pub fn new(ws_url: Option<String>) -> (rpc: Rpc)
        ensures
            rpc.index == 0,
            rpc.ws_url == ws_url,
            rpc.latency is None,
            rpc.healthy,
    {
        Rpc { index: 0, ws_url, latency: None, healthy: true }
    }

    /// The descriptor that stands for "no node": no endpoint, no sample.
    pub fn none() -> (rpc: Rpc)
        ensures
            rpc@ == Self::spec_none(),
    {
        Rpc { index: 0, ws_url: None, latency: None, healthy: false }
    }

    /// The content of [`Rpc::none`].
    pub open spec fn spec_none() -> Node {
        Node { index: 0, ws_url: None, latency: None, healthy: false }
    }

    /// A copy of this descriptor.
    pub fn duplicate(&self) -> (copy: Rpc)
        ensures
            copy@ == self@,
    {
        let ws_url = match &self.ws_url {
            Some(url) => Some(url.clone()),
            None => None,
        };
        Rpc { index: self.index, ws_url, latency: self.latency, healthy: self.healthy }
    }

    /// The latency by which the selector ranks this node.
    pub fn effective_latency(&self) -> (d: u64)
        ensures
            d == self@.effective_latency(),
    {
        match self.latency {
            Some(d) => d,
            None => 0,
        }
    }
}

/// The content of a list of descriptors.
pub open spec fn nodes_of(list: Seq<Rpc>) -> Seq<Node> {
    Seq::new(list.len(), |i: int| list[i]@)
}

/// `nodes` with every index set to its position.
pub open spec fn reindexed(nodes: Seq<Node>) -> Seq<Node> {
    Seq::new(nodes.len(), |i: int| Node { index: i as usize, ..nodes[i] })
}

/// Whether every node's index is its position.
pub open spec fn dense(nodes: Seq<Node>) -> bool {
    forall|i: int| 0 <= i < nodes.len() ==> (#[trigger] nodes[i]).index == i
}

/// `nodes` after a round trip of `latency` nanoseconds on the node at
/// `index`. An index outside the registry changes nothing.
pub open spec fn with_latency(nodes: Seq<Node>, index: int, latency: u64) -> Seq<Node> {
    if 0 <= index < nodes.len() {
        nodes.update(index, Node { latency: Some(latency), ..nodes[index] })
    } else {
        nodes
    }
}

/// `nodes` with the health marker of the node at `index` set.
pub open spec fn with_health(nodes: Seq<Node>, index: int, healthy: bool) -> Seq<Node> {
    if 0 <= index < nodes.len() {
        nodes.update(index, Node { healthy, ..nodes[index] })
    } else {
        nodes
    }
}

/// Whether position `i` is the selector's choice among `nodes`: no node
/// ranks lower, and among those that rank the same it comes first.
pub open spec fn is_choice(nodes: Seq<Node>, i: int) -> bool {
    &&& 0 <= i < nodes.len()
    &&& forall|j: int|
        0 <= j < nodes.len() ==> nodes[i].effective_latency() <= (
        #[trigger] nodes[j]).effective_latency()
    &&& forall|j: int|
        0 <= j < i ==> (#[trigger] nodes[j]).effective_latency() > nodes[i].effective_latency()
}

/// The selector is deterministic: a registry has at most one choice.
pub proof fn lemma_choice_unique(nodes: Seq<Node>, i: int, j: int)
    requires
        is_choice(nodes, i),
        is_choice(nodes, j),
    ensures
        i == j,
{
    if i < j {
        assert(nodes[i].effective_latency() > nodes[j].effective_latency());
        assert(nodes[j].effective_latency() <= nodes[i].effective_latency());
    } else if j < i {
        assert(nodes[j].effective_latency() > nodes[i].effective_latency());
        assert(nodes[i].effective_latency() <= nodes[j].effective_latency());
    }
}

/// The selector is total and prefers lower latency: every non-empty
/// registry has a choice, and no node ranks strictly lower than it.
pub proof fn lemma_choice_exists(nodes: Seq<Node>) -> (i: int)
    requires
        nodes.len() > 0,
    ensures
        is_choice(nodes, i),
    decreases nodes.len(),
{
    if nodes.len() == 1 {
        0
    } else {
        let front = nodes.drop_last();
        let best = lemma_choice_exists(front);
        let last = nodes.len() - 1;
        assert forall|j: int| 0 <= j < front.len() implies front[j] == nodes[j] by {}
        if nodes[last].effective_latency() < nodes[best].effective_latency() {
            assert forall|j: int| 0 <= j < nodes.len() implies nodes[last].effective_latency() <= (
            #[trigger] nodes[j]).effective_latency() by {
                if j < last {
                    assert(front[best].effective_latency() <= front[j].effective_latency());
                }
            }
            assert forall|j: int| 0 <= j < last implies (#[trigger] nodes[j]).effective_latency()
                > nodes[last].effective_latency() by {
                assert(front[best].effective_latency() <= front[j].effective_latency());
            }
            last
        } else {
            assert forall|j: int| 0 <= j < nodes.len() implies nodes[best].effective_latency() <= (
            #[trigger] nodes[j]).effective_latency() by {
                if j < last {
                    assert(front[best].effective_latency() <= front[j].effective_latency());
                }
            }
            assert forall|j: int| 0 <= j < best implies (#[trigger] nodes[j]).effective_latency()
                > nodes[best].effective_latency() by {
                assert(front[j].effective_latency() > front[best].effective_latency());
            }
            best
        }
    }
}

/// The ordered list of upstream nodes of one generation.
pub struct Registry {
    nodes: Vec<Rpc>,
    generation: u64,
}

impl View for Registry {
    type V = Seq<Node>;

    /// The nodes in registry order.
    closed spec fn view(&self) -> Seq<Node> {
        nodes_of(self.nodes@)
    }
}

impl Registry {
    /// The registry is well formed: indices are dense.
    pub open spec fn wf(&self) -> bool {
        dense(self@)
    }

    /// The number of the current generation.
    pub closed spec fn spec_generation(&self) -> u64 {
        self.generation
    }

    /// An empty registry.
    pub fn new() -> (registry: Registry)
        ensures
            registry.wf(),
            registry@ == Seq::<Node>::empty(),
            registry.spec_generation() == 0,
    {
        let registry = Registry { nodes: Vec::new(), generation: 0 };
        assert(registry@ =~= Seq::<Node>::empty());
        registry
    }

    /// How many nodes are registered.
    pub fn len(&self) -> (n: usize)
        ensures
            n == self@.len(),
    {
        self.nodes.len()
    }

    /// The number of the current generation.
    pub fn generation(&self) -> (g: u64)
        ensures
            g == self.spec_generation(),
    {
        self.generation
    }

    /// A copy of the node at `index`.
    pub fn node(&self, index: usize) -> (rpc: Option<Rpc>)
        ensures
            match rpc {
                Some(r) => index < self@.len() && r@ == self@[index as int],
                None => index >= self@.len(),
            },
    {
        if index < self.nodes.len() {
            Some(self.nodes[index].duplicate())
        } else {
            None
        }
    }

    /// A copy of the nodes, in registry order.
    pub fn snapshot(&self) -> (copy: Vec<Rpc>)
        ensures
            nodes_of(copy@) == self@,
    {
        let mut copy: Vec<Rpc> = Vec::new();
        let mut i: usize = 0;
        while i < self.nodes.len()
            invariant
                i <= self.nodes.len(),
                copy@.len() == i,
                forall|j: int| 0 <= j < i ==> copy@[j]@ == self.nodes@[j]@,
            decreases self.nodes.len() - i,
        {
            copy.push(self.nodes[i].duplicate());
            i += 1;
        }
        assert(nodes_of(copy@) =~= self@);
        copy
    }

    /// Records a round trip of `latency` nanoseconds on the node at `index`.
    /// An index outside the registry changes nothing.
    pub fn update_latency(&mut self, index: usize, latency: u64)
        ensures
            final(self)@ == with_latency(old(self)@, index as int, latency),
            final(self).spec_generation() == old(self).spec_generation(),
            old(self).wf() ==> final(self).wf(),
    {
        if index < self.nodes.len() {
            let mut node = self.nodes[index].duplicate();
            node.latency = Some(latency);
            self.nodes.set(index, node);
            assert(self@ =~= with_latency(old(self)@, index as int, latency));
        }
    }

    /// Sets the health marker of the node at `index`. An index outside the
    /// registry changes nothing.
    pub fn set_health(&mut self, index: usize, healthy: bool)
        ensures
            final(self)@ == with_health(old(self)@, index as int, healthy),
            final(self).spec_generation() == old(self).spec_generation(),
            old(self).wf() ==> final(self).wf(),
    {
        if index < self.nodes.len() {
            let mut node = self.nodes[index].duplicate();
            node.healthy = healthy;
            self.nodes.set(index, node);
            assert(self@ =~= with_health(old(self)@, index as int, healthy));
        }
    }

    /// Replaces the nodes wholesale and starts a new generation. Each node
    /// gets its position as index.
    pub fn replace(&mut self, nodes: Vec<Rpc>)
        ensures
            final(self).wf(),
            final(self)@ == reindexed(nodes_of(nodes@)),
            final(self).spec_generation() != old(self).spec_generation(),
    {
        let mut fresh: Vec<Rpc> = Vec::new();
        let mut i: usize = 0;
        while i < nodes.len()
            invariant
                i <= nodes.len(),
                fresh@.len() == i,
                forall|j: int|
                    0 <= j < i ==> fresh@[j]@ == (Node { index: j as usize, ..nodes@[j]@ }),
            decreases nodes.len() - i,
        {
            let mut node = nodes[i].duplicate();
            node.index = i;
            fresh.push(node);
            i += 1;
        }
        self.nodes = fresh;
        self.generation = self.generation.wrapping_add(1);
        assert(self@ =~= reindexed(nodes_of(nodes@)));
    }
}

/// Picks the node for the next call: the one with the lowest latency, the
/// first of them where several rank the same. Returns a copy of the chosen
/// descriptor and its position, or the empty descriptor and `None` where the
/// registry has no node.
pub fn pick(registry: &Registry) -> (chosen: (Rpc, Option<usize>))
    ensures
        match chosen.1 {
            Some(i) => is_choice(registry@, i as int) && chosen.0@ == registry@[i as int],
            None => registry@.len() == 0 && chosen.0@ == Rpc::spec_none(),
        },
{
    if registry.nodes.len() == 0 {
        return (Rpc::none(), None);
    }
    let mut best: usize = 0;
    let mut best_latency = registry.nodes[0].effective_latency();
    let mut i: usize = 1;
    while i < registry.nodes.len()
        invariant
            1 <= i <= registry.nodes.len(),
            best < i,
            best_latency == registry@[best as int].effective_latency(),
            forall|j: int|
                0 <= j < i ==> best_latency <= (#[trigger] registry@[j]).effective_latency(),
            forall|j: int|
                0 <= j < best ==> (#[trigger] registry@[j]).effective_latency() > best_latency,
        decreases registry.nodes.len() - i,
    {
        let latency = registry.nodes[i].effective_latency();
        if latency < best_latency {
            best = i;
            best_latency = latency;
        }
        i += 1;
    }
    (registry.nodes[best].duplicate(), Some(best))
}

} // verus!
