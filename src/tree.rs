use vstd::prelude::*;

verus! {

/// Where a node sits in the lattice: the number of up-moves and down-moves
/// since the root.
#[derive(Clone, Copy, Debug, PartialEq, Eq, Structural, Hash)]
pub struct Position {
    pub num_ups: usize,
    pub num_downs: usize,
}

/// A lattice position under the name used by callers that build trees.
pub type TreePosition = Position;

impl Position {
    /// The layer of the position: the number of moves since the root.
    pub open spec fn layer(self) -> int {
        self.num_ups + self.num_downs
    }

    /// The positions one up-move and one down-move further.
    pub fn get_branches(&self) -> (r: (Position, Position))
        requires
            self.num_ups < usize::MAX,
            self.num_downs < usize::MAX,
        ensures
            r.0 == (Position { num_ups: (self.num_ups + 1) as usize, num_downs: self.num_downs }),
            r.1 == (Position { num_ups: self.num_ups, num_downs: (self.num_downs + 1) as usize }),
    {
        (
            Position { num_ups: self.num_ups + 1, num_downs: self.num_downs },
            Position { num_ups: self.num_ups, num_downs: self.num_downs + 1 },
        )
    }
}

/// The position of layer `k` with `j` down-moves.
pub open spec fn position_at(k: int, j: int) -> Position {
    Position { num_ups: (k - j) as usize, num_downs: j as usize }
}

/// The positions of layer `k`, from all up-moves to all down-moves.
pub open spec fn layer_positions(k: nat) -> Seq<Position> {
    Seq::new(k + 1, |j: int| position_at(k as int, j))
}

/// The layer after `tree_positions`: each position moved up once, followed
/// by the last position moved down once.
pub fn get_next_layer(tree_positions: Vec<Position>) -> (r: Vec<Position>)
    requires
        forall|i: int|
            0 <= i < tree_positions@.len() ==> #[trigger] tree_positions@[i].num_ups < usize::MAX,
        tree_positions@.len() > 0 ==> tree_positions@.last().num_downs < usize::MAX,
    ensures
        tree_positions@.len() == 0 ==> r@.len() == 0,
        tree_positions@.len() > 0 ==> r@.len() == tree_positions@.len() + 1 && r@.last() == (
        Position {
            num_ups: tree_positions@.last().num_ups,
            num_downs: (tree_positions@.last().num_downs + 1) as usize,
        }),
        forall|i: int|
            0 <= i < tree_positions@.len() ==> #[trigger] r@[i] == (Position {
                num_ups: (tree_positions@[i].num_ups + 1) as usize,
                num_downs: tree_positions@[i].num_downs,
            }),
{
    let mut next_layer: Vec<Position> = Vec::new();
    let mut i: usize = 0;
    while i < tree_positions.len()
        invariant
            i <= tree_positions@.len(),
            next_layer@.len() == i,
            forall|t: int|
                0 <= t < tree_positions@.len() ==> #[trigger] tree_positions@[t].num_ups
                    < usize::MAX,
            forall|t: int|
                0 <= t < i ==> #[trigger] next_layer@[t] == (Position {
                    num_ups: (tree_positions@[t].num_ups + 1) as usize,
                    num_downs: tree_positions@[t].num_downs,
                }),
        decreases tree_positions@.len() - i,
    {
        let pos = tree_positions[i];
        next_layer.push(Position { num_ups: pos.num_ups + 1, num_downs: pos.num_downs });
        i = i + 1;
    }
    if tree_positions.len() > 0 {
        let last = tree_positions[tree_positions.len() - 1];
        next_layer.push(Position { num_ups: last.num_ups, num_downs: last.num_downs + 1 });
    }
    next_layer
}

/// The layer after layer `k` is layer `k + 1`.
pub proof fn lemma_next_layer(k: nat, current: Seq<Position>, next: Seq<Position>)
    requires
        current == layer_positions(k),
        next.len() == current.len() + 1,
        next.last() == (Position {
            num_ups: current.last().num_ups,
            num_downs: (current.last().num_downs + 1) as usize,
        }),
        forall|i: int|
            0 <= i < current.len() ==> #[trigger] next[i] == (Position {
                num_ups: (current[i].num_ups + 1) as usize,
                num_downs: current[i].num_downs,
            }),
        k + 1 <= usize::MAX,
    ensures
        next == layer_positions(k + 1),
{
    assert forall|j: int| 0 <= j < next.len() implies #[trigger] next[j] == layer_positions(
        k + 1,
    )[j] by {
        if j < current.len() {
            assert(current[j] == position_at(k as int, j));
        }
    }
    assert(next =~= layer_positions(k + 1));
}


/// A node of the lattice: the underlying's price at a position and the
/// timestamp of its layer.
#[derive(Clone, Copy, Debug)]
pub struct Node<V, D> {
    pub price: V,
    pub datetime: D,
    pub pos: Position,
}

/// A recombining-by-index binomial lattice. `nodes[k][j]` is the node at
/// position `position_at(k, j)` (layer `k`, `j` down-moves), and
/// `valuation_cache[k][j]` its value once backward induction has reached it.
pub struct Tree<V, D> {
    pub head: Node<V, D>,
    pub nodes: Vec<Vec<Node<V, D>>>,
    pub valuation_cache: Vec<Vec<Option<V>>>,
}

/// `n * (n + 1) / 2`: the number of nodes in a lattice of `n` layers.
pub open spec fn triangle(n: nat) -> nat {
    n * (n + 1) / 2
}

proof fn lemma_triangle_step(n: nat)
    ensures
        triangle(n + 1) == triangle(n) + n + 1,
        triangle(n) <= triangle(n + 1),
{
    assert((n + 1) * (n + 2) == n * (n + 1) + 2 * (n + 1)) by (nonlinear_arith);
}

impl<V: Copy, D: Copy> Tree<V, D> {
    /// The number of layers.
    pub open spec fn depth(&self) -> int {
        self.nodes@.len() as int
    }

    pub open spec fn node(&self, k: int, j: int) -> Node<V, D> {
        self.nodes@[k]@[j]
    }

    pub open spec fn cached(&self, k: int, j: int) -> Option<V> {
        self.valuation_cache@[k]@[j]
    }

    /// Layer `k` holds the `k + 1` nodes of its positions, in order, and the
    /// cache has the same shape.
    pub open spec fn wf(&self) -> bool {
        &&& 1 <= self.nodes@.len() < usize::MAX
        &&& self.valuation_cache@.len() == self.nodes@.len()
        &&& forall|k: int| 0 <= k < self.depth() ==> (#[trigger] self.nodes@[k])@.len() == k + 1
        &&& forall|k: int|
            0 <= k < self.depth() ==> (#[trigger] self.valuation_cache@[k])@.len() == k + 1
        &&& forall|k: int, j: int|
            0 <= j <= k < self.depth() ==> (#[trigger] self.node(k, j)).pos == position_at(k, j)
        &&& self.head == self.node(0, 0)
    }

    /// `w` is a value of the node at layer `k`, `j` down-moves: on the last layer
    /// what `leaf` gives for it, elsewhere what `combine` gives for it, its two
    /// children and their cached values.
    pub open spec fn value_ok<L, C>(&self, leaf: L, combine: C, k: int, j: int, w: V) -> bool where
        L: Fn(&Node<V, D>) -> V,
        C: Fn(&Node<V, D>, &Node<V, D>, &Node<V, D>, V, V) -> V,
     {
        if k + 1 >= self.depth() {
            leaf.ensures((&self.node(k, j),), w)
        } else {
            &&& self.cached(k + 1, j) is Some
            &&& self.cached(k + 1, j + 1) is Some
            &&& combine.ensures(
                (
                    &self.node(k, j),
                    &self.node(k + 1, j),
                    &self.node(k + 1, j + 1),
                    self.cached(k + 1, j)->0,
                    self.cached(k + 1, j + 1)->0,
                ),
                w,
            )
        }
    }

    /// Every cached value is the backward-induction value of its node.
    pub open spec fn cache_sound<L, C>(&self, leaf: L, combine: C) -> bool where
        L: Fn(&Node<V, D>) -> V,
        C: Fn(&Node<V, D>, &Node<V, D>, &Node<V, D>, V, V) -> V,
     {
        forall|k: int, j: int|
            0 <= j <= k < self.depth() && (#[trigger] self.cached(k, j)) is Some ==> self.value_ok(
                leaf,
                combine,
                k,
                j,
                self.cached(k, j)->0,
            )
    }

    /// Every node reachable from layer `k`, `j` down-moves, is cached.
    pub open spec fn covered(&self, k: int, j: int) -> bool {
        forall|k2: int, j2: int|
            k <= k2 < self.depth() && j <= j2 <= j + (k2 - k) ==> (#[trigger] self.cached(
                k2,
                j2,
            )) is Some
    }

    /// Every node of the lattice has a cached value.
    pub open spec fn all_valued(&self) -> bool {
        forall|k: int, j: int| 0 <= j <= k < self.depth() ==> (#[trigger] self.cached(k, j)) is Some
    }

    /// No node of the lattice has a cached value.
    pub open spec fn none_valued(&self) -> bool {
        forall|k: int, j: int| 0 <= j <= k < self.depth() ==> (#[trigger] self.cached(k, j)) is None
    }
}

/// The number of valued entries among the first `n` of `row`.
pub open spec fn valued_in_row<V>(row: Seq<Option<V>>, n: int) -> nat
    decreases n,
{
    if n <= 0 {
        0
    } else {
        valued_in_row(row, n - 1) + if row[n - 1] is Some {
            1nat
        } else {
            0nat
        }
    }
}

impl<V: Copy, D: Copy> Tree<V, D> {
    /// The number of valued nodes in the first `k` layers.
    pub open spec fn valued_in_layers(&self, k: int) -> nat
        decreases k,
    {
        if k <= 0 {
            0
        } else {
            self.valued_in_layers(k - 1) + valued_in_row(self.valuation_cache@[k - 1]@, k)
        }
    }

    /// The number of valued nodes of the lattice.
    pub open spec fn valued_count(&self) -> nat {
        self.valued_in_layers(self.depth())
    }
}

/// Cached values stay as they are; new ones may appear.
pub open spec fn cache_grows<V: Copy, D: Copy>(before: Tree<V, D>, after: Tree<V, D>) -> bool {
    forall|k: int, j: int|
        0 <= j <= k < before.depth() && (#[trigger] before.cached(k, j)) is Some ==> after.cached(
            k,
            j,
        ) == before.cached(k, j)
}

proof fn lemma_cached_covers<V: Copy, D: Copy, L, C>(t: Tree<V, D>, leaf: L, combine: C, k: int, j: int)
    where
        L: Fn(&Node<V, D>) -> V,
        C: Fn(&Node<V, D>, &Node<V, D>, &Node<V, D>, V, V) -> V,
    requires
        t.wf(),
        t.cache_sound(leaf, combine),
        0 <= j <= k < t.depth(),
        t.cached(k, j) is Some,
    ensures
        t.covered(k, j),
    decreases t.depth() - k,
{
    if k + 1 < t.depth() {
        assert(t.value_ok(leaf, combine, k, j, t.cached(k, j)->0));
        lemma_cached_covers(t, leaf, combine, k + 1, j);
        lemma_cached_covers(t, leaf, combine, k + 1, j + 1);
        assert forall|k2: int, j2: int| k <= k2 < t.depth() && j <= j2 <= j + (k2 - k) implies (
        #[trigger] t.cached(k2, j2)) is Some by {
            if k2 > k && j2 > j {
                assert(j + 1 <= j2 <= j + 1 + (k2 - (k + 1)));
            }
        }
    }
}

/// Builds the lattice with one layer per timestamp of `datetimes`; the node at
/// each position holds the price that `price_at` gives for it. Nothing is valued yet.
pub fn construct_tree<V: Copy, D: Copy, F: Fn(&Position) -> V>(datetimes: &Vec<D>, price_at: &F) -> (r:
    Tree<V, D>)
    requires
        1 <= datetimes@.len() < usize::MAX,
        forall|p: &Position| #[trigger] price_at.requires((p,)),
    ensures
        r.wf(),
        r.depth() == datetimes@.len(),
        forall|k: int, j: int|
            0 <= j <= k < r.depth() ==> (#[trigger] r.node(k, j)).datetime == datetimes@[k]
                && price_at.ensures((&position_at(k, j),), r.node(k, j).price),
        r.none_valued(),
{
    let mut nodes: Vec<Vec<Node<V, D>>> = Vec::new();
    let mut cache: Vec<Vec<Option<V>>> = Vec::new();
    let mut current_layer: Vec<Position> = vec![Position { num_ups: 0, num_downs: 0 }];
    assert(current_layer@ =~= layer_positions(0));
    let mut k: usize = 0;
    while k < datetimes.len()
        invariant
            k <= datetimes@.len() < usize::MAX,
            forall|p: &Position| #[trigger] price_at.requires((p,)),
            nodes@.len() == k,
            cache@.len() == k,
            k < datetimes@.len() ==> current_layer@ == layer_positions(k as nat),
            forall|k2: int|
                0 <= k2 < k ==> (#[trigger] nodes@[k2])@.len() == k2 + 1 && cache@[k2]@.len()
                    == k2 + 1,
            forall|k2: int, j: int|
                0 <= j <= k2 < k ==> (#[trigger] nodes@[k2]@[j]).pos == position_at(k2, j)
                    && nodes@[k2]@[j].datetime == datetimes@[k2] && price_at.ensures(
                    (&position_at(k2, j),),
                    nodes@[k2]@[j].price,
                ),
            forall|k2: int, j: int| 0 <= j <= k2 < k ==> (#[trigger] cache@[k2]@[j]) is None,
        decreases datetimes@.len() - k,
    {
        let datetime = datetimes[k];
        let mut layer: Vec<Node<V, D>> = Vec::new();
        let mut cache_layer: Vec<Option<V>> = Vec::new();
        let mut j: usize = 0;
        while j < current_layer.len()
            invariant
                current_layer@ == layer_positions(k as nat),
                forall|p: &Position| #[trigger] price_at.requires((p,)),
                j <= current_layer@.len(),
                layer@.len() == j,
                cache_layer@.len() == j,
                k < datetimes@.len(),
                datetime == datetimes@[k as int],
                forall|t: int|
                    0 <= t < j ==> (#[trigger] layer@[t]).pos == position_at(k as int, t)
                        && layer@[t].datetime == datetime && price_at.ensures(
                        (&position_at(k as int, t),),
                        layer@[t].price,
                    ),
                forall|t: int| 0 <= t < j ==> (#[trigger] cache_layer@[t]) is None,
            decreases current_layer@.len() - j,
        {
            let pos = current_layer[j];
            assert(pos == position_at(k as int, j as int));
            let price = price_at(&pos);
            layer.push(Node { price, datetime, pos });
            cache_layer.push(None);
            j = j + 1;
        }
        nodes.push(layer);
        cache.push(cache_layer);
        if k + 1 < datetimes.len() {
            let ghost current = current_layer@;
            assert forall|i: int| 0 <= i < current.len() implies #[trigger] current[i].num_ups
                < usize::MAX by {
                assert(current[i] == position_at(k as int, i));
            }
            current_layer = get_next_layer(current_layer);
            proof {
                lemma_next_layer(k as nat, current, current_layer@);
            }
        }
        k = k + 1;
    }
    let head = nodes[0][0];
    let tree = Tree { head, nodes, valuation_cache: cache };
    assert forall|k2: int| 0 <= k2 < tree.depth() implies (#[trigger] tree.valuation_cache@[k2])@.len()
        == k2 + 1 by {
        assert(tree.nodes@[k2]@.len() == k2 + 1);
    }
    assert forall|k2: int, j: int| 0 <= j <= k2 < tree.depth() implies (#[trigger] tree.node(
        k2,
        j,
    )).pos == position_at(k2, j) by {
        assert(tree.nodes@[k2]@[j] == tree.node(k2, j));
    }
    assert forall|k2: int, j: int| 0 <= j <= k2 < tree.depth() implies (#[trigger] tree.cached(
        k2,
        j,
    )) is None by {
        assert(tree.valuation_cache@[k2]@[j] == tree.cached(k2, j));
    }
    tree
}

impl<V: Copy, D: Copy> Tree<V, D> {
    /// The value of the node at layer `k` with `j` down-moves, by backward
    /// induction: taken from the cache when it is there, else computed from the
    /// values of its two children (or, on the last layer, from `leaf`) and cached.
    fn value_node<L, C>(&mut self, k: usize, j: usize, leaf: &L, combine: &C) -> (r: V) where
        L: Fn(&Node<V, D>) -> V,
        C: Fn(&Node<V, D>, &Node<V, D>, &Node<V, D>, V, V) -> V,

        requires
            old(self).wf(),
            old(self).cache_sound(*leaf, *combine),
            j <= k < old(self).depth(),
            forall|n: &Node<V, D>| #[trigger] leaf.requires((n,)),
            forall|n: &Node<V, D>, u: &Node<V, D>, d: &Node<V, D>, uv: V, dv: V|
                #[trigger] combine.requires((n, u, d, uv, dv)),
        ensures
            final(self).wf(),
            final(self).nodes == old(self).nodes,
            final(self).head == old(self).head,
            final(self).cache_sound(*leaf, *combine),
            cache_grows(*old(self), *final(self)),
            forall|k2: int|
                0 <= k2 < k ==> #[trigger] final(self).valuation_cache@[k2]
                    == old(self).valuation_cache@[k2],
            final(self).cached(k as int, j as int) == Some(r),
            final(self).covered(k as int, j as int),
        decreases old(self).depth() - k,
    {
        if let Some(v) = self.valuation_cache[k][j] {
            proof {
                lemma_cached_covers(*self, *leaf, *combine, k as int, j as int);
            }
            return v;
        }
        let ghost start = *self;
        let node = self.nodes[k][j];
        let value = if k + 1 < self.nodes.len() {
            let up = self.nodes[k + 1][j];
            let down = self.nodes[k + 1][j + 1];
            let up_value = self.value_node(k + 1, j, leaf, combine);
            let ghost middle = *self;
            let down_value = self.value_node(k + 1, j + 1, leaf, combine);
            proof {
                lemma_grows_keeps(middle, *self, k + 1, j as int);
                lemma_grows_trans(start, middle, *self);
                assert(self.valuation_cache@[k as int] == start.valuation_cache@[k as int]);
            }
            combine(&node, &up, &down, up_value, down_value)
        } else {
            leaf(&node)
        };
        let ghost before_set = *self;
        proof {
            if k + 1 >= self.nodes.len() {
                assert(before_set == start);
            }
            assert(before_set.cached(k as int, j as int) is None);
            assert(before_set.value_ok(*leaf, *combine, k as int, j as int, value));
        }
        let mut row = Vec::new();
        std::mem::swap(&mut row, &mut self.valuation_cache[k]);
        row.set(j, Some(value));
        std::mem::swap(&mut row, &mut self.valuation_cache[k]);
        proof {
            assert(self.valuation_cache@[k as int]@ == before_set.valuation_cache@[k as int]@.update(
                j as int,
                Some(value),
            ));
            assert(forall|k2: int|
                0 <= k2 < self.depth() && k2 != k ==> #[trigger] self.valuation_cache@[k2]
                    == before_set.valuation_cache@[k2]);
            lemma_cache_insert(before_set, *self, *leaf, *combine, k as int, j as int, value);
        }
        value
    }

    /// The value of the lattice by memoised backward induction: a node on the
    /// last layer is worth what `leaf` gives for it; any other node what `combine`
    /// gives for it, its up and down children and their values. The cache is
    /// cleared first, so that values of an earlier valuation under other rules
    /// are never reused; afterwards it holds the value of every node.
    pub fn value<L, C>(&mut self, leaf: &L, combine: &C) -> (r: V) where
        L: Fn(&Node<V, D>) -> V,
        C: Fn(&Node<V, D>, &Node<V, D>, &Node<V, D>, V, V) -> V,

        requires
            old(self).wf(),
            forall|n: &Node<V, D>| #[trigger] leaf.requires((n,)),
            forall|n: &Node<V, D>, u: &Node<V, D>, d: &Node<V, D>, uv: V, dv: V|
                #[trigger] combine.requires((n, u, d, uv, dv)),
        ensures
            final(self).wf(),
            final(self).nodes == old(self).nodes,
            final(self).head == old(self).head,
            final(self).cache_sound(*leaf, *combine),
            final(self).all_valued(),
            final(self).cached(0, 0) == Some(r),
    {
        self.clear_valuations();
        let r = self.value_node(0, 0, leaf, combine);
        assert forall|k: int, j: int| 0 <= j <= k < self.depth() implies (#[trigger] self.cached(
            k,
            j,
        )) is Some by {
            assert(0 <= j <= 0 + (k - 0));
        }
        r
    }

    /// Empties the valuation cache.
    pub fn clear_valuations(&mut self)
        requires
            old(self).wf(),
        ensures
            final(self).wf(),
            final(self).nodes == old(self).nodes,
            final(self).head == old(self).head,
            final(self).none_valued(),
    {
        let mut cache: Vec<Vec<Option<V>>> = Vec::new();
        let mut k: usize = 0;
        while k < self.nodes.len()
            invariant
                self.wf(),
                k <= self.depth(),
                cache@.len() == k,
                forall|k2: int| 0 <= k2 < k ==> (#[trigger] cache@[k2])@.len() == k2 + 1,
                forall|k2: int, j: int| 0 <= j <= k2 < k ==> (#[trigger] cache@[k2]@[j]) is None,
            decreases self.depth() - k,
        {
            let mut row: Vec<Option<V>> = Vec::new();
            let mut j: usize = 0;
            while j <= k
                invariant
                    j <= k + 1,
                    k < usize::MAX,
                    row@.len() == j,
                    forall|t: int| 0 <= t < j ==> (#[trigger] row@[t]) is None,
                decreases k + 1 - j,
            {
                row.push(None);
                j = j + 1;
            }
            cache.push(row);
            k = k + 1;
        }
        let ghost before = *self;
        self.valuation_cache = cache;
        assert forall|k2: int, j: int| 0 <= j <= k2 < self.depth() implies (#[trigger] self.node(
            k2,
            j,
        )).pos == position_at(k2, j) by {
            assert(self.node(k2, j) == before.node(k2, j));
        }
        assert forall|k2: int| 0 <= k2 < self.depth() implies (#[trigger] self.nodes@[k2])@.len()
            == k2 + 1 by {
            assert(self.nodes@[k2] == before.nodes@[k2]);
        }
        assert forall|k2: int, j: int| 0 <= j <= k2 < self.depth() implies (#[trigger] self.cached(
            k2,
            j,
        )) is None by {
            assert(self.valuation_cache@[k2]@[j] == self.cached(k2, j));
        }
    }

    /// The node at `pos`, when the lattice reaches that far.
    pub fn get_node(&self, pos: &Position) -> (r: Option<Node<V, D>>)
        requires
            self.wf(),
        ensures
            r is Some <==> pos.layer() < self.depth(),
            r matches Some(n) ==> n == self.node(pos.layer(), pos.num_downs as int) && n.pos
                == *pos,
    {
        if pos.num_ups >= self.nodes.len() || pos.num_downs >= self.nodes.len() - pos.num_ups {
            return None;
        }
        let k = pos.num_ups + pos.num_downs;
        assert(self.nodes@[k as int]@[pos.num_downs as int] == self.node(k as int, pos.num_downs as int));
        Some(self.nodes[k][pos.num_downs])
    }

    /// The cached value of the node at `pos`, if it has been valued.
    pub fn cached_value(&self, pos: &Position) -> (r: Option<V>)
        requires
            self.wf(),
        ensures
            pos.layer() >= self.depth() ==> r is None,
            pos.layer() < self.depth() ==> r == self.cached(pos.layer(), pos.num_downs as int),
    {
        if pos.num_ups >= self.nodes.len() || pos.num_downs >= self.nodes.len() - pos.num_ups {
            return None;
        }
        let k = pos.num_ups + pos.num_downs;
        self.valuation_cache[k][pos.num_downs]
    }

    /// The number of nodes in the lattice.
    pub fn num_nodes(&self) -> (r: usize)
        requires
            self.wf(),
            triangle(self.depth() as nat) <= usize::MAX,
        ensures
            r == triangle(self.depth() as nat),
    {
        let mut total: usize = 0;
        let mut k: usize = 0;
        while k < self.nodes.len()
            invariant
                self.wf(),
                k <= self.depth(),
                total == triangle(k as nat),
                triangle(self.depth() as nat) <= usize::MAX,
            decreases self.depth() - k,
        {
            proof {
                lemma_triangle_step(k as nat);
                lemma_triangle_monotone((k + 1) as nat, self.depth() as nat);
            }
            total = total + self.nodes[k].len();
            k = k + 1;
        }
        total
    }

    /// The number of nodes whose value is cached.
    pub fn num_valued(&self) -> (r: usize)
        requires
            self.wf(),
            triangle(self.depth() as nat) <= usize::MAX,
        ensures
            r == self.valued_count(),
            r <= triangle(self.depth() as nat),
            self.all_valued() ==> r == triangle(self.depth() as nat),
            self.none_valued() ==> r == 0,
    {
        let mut count: usize = 0;
        let mut k: usize = 0;
        while k < self.valuation_cache.len()
            invariant
                self.wf(),
                k <= self.depth(),
                count <= triangle(k as nat),
                count == self.valued_in_layers(k as int),
                self.all_valued() ==> count == triangle(k as nat),
                self.none_valued() ==> count == 0,
                triangle(self.depth() as nat) <= usize::MAX,
            decreases self.depth() - k,
        {
            proof {
                lemma_triangle_step(k as nat);
                lemma_triangle_monotone((k + 1) as nat, self.depth() as nat);
            }
            let ghost base = count;
            let mut j: usize = 0;
            while j <= k
                invariant
                    self.wf(),
                    k < self.depth(),
                    j <= k + 1,
                    count <= base + j,
                    count == self.valued_in_layers(k as int) + valued_in_row(
                        self.valuation_cache@[k as int]@,
                        j as int,
                    ),
                    base == self.valued_in_layers(k as int),
                    self.all_valued() ==> count == base + j,
                    self.none_valued() ==> count == base,
                    base + k + 1 <= usize::MAX,
                decreases k + 1 - j,
            {
                if self.valuation_cache[k][j].is_some() {
                    assert(self.valuation_cache@[k as int]@[j as int] == self.cached(k as int, j as int));
                    count = count + 1;
                } else {
                    assert(self.valuation_cache@[k as int]@[j as int] == self.cached(k as int, j as int));
                }
                j = j + 1;
            }
            k = k + 1;
        }
        count
    }
}

/// Caching at layer `k`, `j` down-moves, a value that is right for that node
/// and whose children are covered keeps the cache sound and covers the node.
proof fn lemma_cache_insert<V: Copy, D: Copy, L, C>(
    before: Tree<V, D>,
    after: Tree<V, D>,
    leaf: L,
    combine: C,
    k: int,
    j: int,
    value: V,
)
    where
        L: Fn(&Node<V, D>) -> V,
        C: Fn(&Node<V, D>, &Node<V, D>, &Node<V, D>, V, V) -> V,
    requires
        before.wf(),
        before.cache_sound(leaf, combine),
        0 <= j <= k < before.depth(),
        before.cached(k, j) is None,
        before.value_ok(leaf, combine, k, j, value),
        k + 1 < before.depth() ==> before.covered(k + 1, j) && before.covered(k + 1, j + 1),
        after.nodes == before.nodes,
        after.head == before.head,
        after.valuation_cache@.len() == before.valuation_cache@.len(),
        after.valuation_cache@[k]@ == before.valuation_cache@[k]@.update(j, Some(value)),
        forall|k2: int|
            0 <= k2 < before.depth() && k2 != k ==> #[trigger] after.valuation_cache@[k2]
                == before.valuation_cache@[k2],
    ensures
        after.wf(),
        after.cache_sound(leaf, combine),
        cache_grows(before, after),
        after.cached(k, j) == Some(value),
        after.covered(k, j),
{
    assert forall|k2: int, j2: int| 0 <= j2 <= k2 < after.depth() implies (#[trigger] after.node(
        k2,
        j2,
    )).pos == position_at(k2, j2) by {
        assert(after.node(k2, j2) == before.node(k2, j2));
    }
    assert forall|k2: int| 0 <= k2 < after.depth() implies (#[trigger] after.nodes@[k2])@.len()
        == k2 + 1 by {
        assert(after.nodes@[k2] == before.nodes@[k2]);
    }
    assert forall|k2: int| 0 <= k2 < after.depth() implies (#[trigger] after.valuation_cache@[k2])@.len()
        == k2 + 1 by {
        if k2 != k {
            assert(after.valuation_cache@[k2] == before.valuation_cache@[k2]);
        }
    }
    assert forall|k2: int, j2: int|
        0 <= j2 <= k2 < after.depth() && (#[trigger] after.cached(k2, j2)) is Some implies after.value_ok(
        leaf,
        combine,
        k2,
        j2,
        after.cached(k2, j2)->0,
    ) by {
        if k2 == k && j2 == j {
            if k2 + 1 < after.depth() {
                assert(after.valuation_cache@[k2 + 1] == before.valuation_cache@[k2 + 1]);
                assert(after.cached(k2 + 1, j2) == before.cached(k2 + 1, j2));
                assert(after.cached(k2 + 1, j2 + 1) == before.cached(k2 + 1, j2 + 1));
            }
        } else {
            if k2 != k {
                assert(after.valuation_cache@[k2] == before.valuation_cache@[k2]);
            }
            assert(before.cached(k2, j2) == after.cached(k2, j2));
            assert(before.value_ok(leaf, combine, k2, j2, after.cached(k2, j2)->0));
            if k2 + 1 < after.depth() {
                if k2 + 1 != k {
                    assert(after.valuation_cache@[k2 + 1] == before.valuation_cache@[k2 + 1]);
                } else {
                    assert(before.cached(k2 + 1, j2) is Some);
                    assert(before.cached(k2 + 1, j2 + 1) is Some);
                }
                assert(before.cached(k2 + 1, j2) == after.cached(k2 + 1, j2));
                assert(before.cached(k2 + 1, j2 + 1) == after.cached(k2 + 1, j2 + 1));
            }
        }
    }
    assert forall|k2: int, j2: int|
        0 <= j2 <= k2 < before.depth() && (#[trigger] before.cached(k2, j2)) is Some implies after.cached(
        k2,
        j2,
    ) == before.cached(k2, j2) by {
        if k2 != k {
            assert(after.valuation_cache@[k2] == before.valuation_cache@[k2]);
        }
    }
    assert forall|k2: int, j2: int|
        k <= k2 < after.depth() && j <= j2 <= j + (k2 - k) implies (#[trigger] after.cached(
        k2,
        j2,
    )) is Some by {
        if k2 > k {
            assert(after.valuation_cache@[k2] == before.valuation_cache@[k2]);
            assert(after.cached(k2, j2) == before.cached(k2, j2));
            if j2 > j {
                assert(j + 1 <= j2 <= j + 1 + (k2 - (k + 1)));
                assert(before.cached(k2, j2) is Some);
            } else {
                assert(before.cached(k2, j2) is Some);
            }
        }
    }
}

/// What one tree covers and caches, a tree whose cache grew from it covers
/// and caches too.
proof fn lemma_grows_keeps<V: Copy, D: Copy>(a: Tree<V, D>, b: Tree<V, D>, k: int, j: int)
    requires
        a.wf(),
        b.wf(),
        a.nodes == b.nodes,
        cache_grows(a, b),
        0 <= j <= k < a.depth(),
        a.covered(k, j),
    ensures
        b.covered(k, j),
        b.cached(k, j) == a.cached(k, j),
{
    assert forall|k2: int, j2: int| k <= k2 < b.depth() && j <= j2 <= j + (k2 - k) implies (
    #[trigger] b.cached(k2, j2)) is Some by {
        assert(a.cached(k2, j2) is Some);
    }
}

proof fn lemma_grows_trans<V: Copy, D: Copy>(a: Tree<V, D>, b: Tree<V, D>, c: Tree<V, D>)
    requires
        a.nodes == b.nodes,
        cache_grows(a, b),
        cache_grows(b, c),
    ensures
        cache_grows(a, c),
{
    assert forall|k: int, j: int|
        0 <= j <= k < a.depth() && (#[trigger] a.cached(k, j)) is Some implies c.cached(k, j)
        == a.cached(k, j) by {
        assert(b.cached(k, j) == a.cached(k, j));
    }
}

proof fn lemma_triangle_monotone(a: nat, b: nat)
    requires
        a <= b,
    ensures
        triangle(a) <= triangle(b),
    decreases b - a,
{
    if a < b {
        lemma_triangle_step(a);
        lemma_triangle_monotone(a + 1, b);
    }
}

} // verus!
