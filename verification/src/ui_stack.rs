//! Layers of the in-game interface, ordered by priority; the topmost one takes the
//! Escape key.

use vstd::prelude::*;

verus! {

#[derive(Debug, Clone, Copy, PartialEq, Eq, Structural)]
pub enum UILayerType {
    /// Base in-game interface (health bars and so on).
    GameUI,
    NpcDialog,
    PauseMenu,
    Settings,
}

/// Priority of each kind of layer: a higher one lies above a lower one.
pub open spec fn spec_priority(t: UILayerType) -> i32 {
    match t {
        UILayerType::GameUI => 100,
        UILayerType::PauseMenu => 200,
        UILayerType::Settings => 250,
        UILayerType::NpcDialog => 300,
    }
}

/// Whether a layer of this kind keeps input from the game below it.
pub open spec fn spec_blocks_input(t: UILayerType) -> bool {
    match t {
        UILayerType::GameUI => false,
        _ => true,
    }
}

#[derive(Debug, Clone, Copy, PartialEq, Eq, Structural)]
pub struct UILayer {
    pub layer_type: UILayerType,
    pub priority: i32,
    pub blocks_input: bool,
}

/// The layer that `UILayer::new` makes for a kind.
pub open spec fn spec_layer(t: UILayerType) -> UILayer {
    UILayer { layer_type: t, priority: spec_priority(t), blocks_input: spec_blocks_input(t) }
}

impl UILayer {
    pub fn new(layer_type: UILayerType) -> (r: UILayer)
        ensures
            r == spec_layer(layer_type),
    {
        let (priority, blocks_input) = match layer_type {
            UILayerType::GameUI => (100, false),
            UILayerType::PauseMenu => (200, true),
            UILayerType::Settings => (250, true),
            UILayerType::NpcDialog => (300, true),
        };
        UILayer { layer_type, priority, blocks_input }
    }
}

/// Layers in strictly increasing priority, each made by `UILayer::new`.
pub open spec fn stack_wf(s: Seq<UILayer>) -> bool {
    &&& forall|i: int| 0 <= i < s.len() ==> #[trigger] s[i] == spec_layer(s[i].layer_type)
    &&& forall|i: int, j: int| 0 <= i < j < s.len() ==> s[i].priority < s[j].priority
}

/// The kinds of layer on a stack.
pub open spec fn spec_kinds(s: Seq<UILayer>) -> Set<UILayerType> {
    Set::new(|t: UILayerType| exists|i: int| 0 <= i < s.len() && s[i].layer_type == t)
}

/// On a well-formed stack each kind occurs at most once.
proof fn lemma_kind_unique(s: Seq<UILayer>, i: int, j: int)
    requires
        stack_wf(s),
        0 <= i < s.len(),
        0 <= j < s.len(),
        s[i].layer_type == s[j].layer_type,
    ensures
        i == j,
{
    assert(s[i] == spec_layer(s[i].layer_type));
    assert(s[j] == spec_layer(s[j].layer_type));
    if i < j {
        assert(s[i].priority < s[j].priority);
    } else if j < i {
        assert(s[j].priority < s[i].priority);
    }
}

proof fn lemma_insert_layer(s: Seq<UILayer>, pos: int, t: UILayerType)
    requires
        stack_wf(s),
        !spec_kinds(s).contains(t),
        0 <= pos <= s.len(),
        forall|k: int| 0 <= k < pos ==> s[k].priority <= spec_priority(t),
        pos < s.len() ==> s[pos].priority > spec_priority(t),
    ensures
        stack_wf(s.insert(pos, spec_layer(t))),
        spec_kinds(s.insert(pos, spec_layer(t))) == spec_kinds(s).insert(t),
{
    let n = s.insert(pos, spec_layer(t));
    assert forall|k: int| 0 <= k < s.len() implies s[k].priority != spec_priority(t) by {
        assert(s[k] == spec_layer(s[k].layer_type));
        assert(s[k].layer_type != t);
    }
    assert forall|k: int| pos <= k < s.len() implies spec_priority(t) < s[k].priority by {
        if k > pos {
            assert(s[pos].priority < s[k].priority);
        }
    }
    assert forall|i: int| 0 <= i < n.len() implies #[trigger] n[i] == spec_layer(n[i].layer_type) by {
        if i < pos {
            assert(n[i] == s[i]);
        } else if i > pos {
            assert(n[i] == s[i - 1]);
        }
    }
    assert forall|i: int, j: int| 0 <= i < j < n.len() implies n[i].priority < n[j].priority by {
        if j < pos {
            assert(n[i] == s[i] && n[j] == s[j]);
        } else if i < pos && j == pos {
            assert(n[i] == s[i]);
        } else if i < pos {
            assert(n[i] == s[i] && n[j] == s[j - 1]);
        } else if i == pos {
            assert(n[j] == s[j - 1]);
        } else {
            assert(n[i] == s[i - 1] && n[j] == s[j - 1]);
        }
    }
    assert forall|u: UILayerType| spec_kinds(n).contains(u) implies spec_kinds(s).insert(t).contains(u) by {
        let i = choose|i: int| 0 <= i < n.len() && n[i].layer_type == u;
        if i < pos {
            assert(n[i] == s[i]);
        } else if i > pos {
            assert(n[i] == s[i - 1]);
        }
    }
    assert forall|u: UILayerType| spec_kinds(s).insert(t).contains(u) implies spec_kinds(n).contains(u) by {
        if u == t {
            assert(n[pos].layer_type == u);
        } else {
            let i = choose|i: int| 0 <= i < s.len() && s[i].layer_type == u;
            if i < pos {
                assert(n[i] == s[i]);
            } else {
                assert(n[i + 1] == s[i]);
            }
        }
    }
    assert(spec_kinds(n) =~= spec_kinds(s).insert(t));
}

proof fn lemma_remove_layer(s: Seq<UILayer>, i: int)
    requires
        stack_wf(s),
        0 <= i < s.len(),
    ensures
        stack_wf(s.remove(i)),
        spec_kinds(s.remove(i)) == spec_kinds(s).remove(s[i].layer_type),
{
    let n = s.remove(i);
    let t = s[i].layer_type;
    assert forall|a: int| 0 <= a < n.len() implies #[trigger] n[a] == spec_layer(n[a].layer_type) by {
        let oa = if a < i { a } else { a + 1 };
        assert(n[a] == s[oa]);
    }
    assert forall|a: int, b: int| 0 <= a < b < n.len() implies n[a].priority < n[b].priority by {
        let oa = if a < i { a } else { a + 1 };
        let ob = if b < i { b } else { b + 1 };
        assert(n[a] == s[oa] && n[b] == s[ob]);
    }
    assert forall|u: UILayerType| spec_kinds(n).contains(u) implies spec_kinds(s).remove(t).contains(u) by {
        let a = choose|a: int| 0 <= a < n.len() && n[a].layer_type == u;
        let oa = if a < i { a } else { a + 1 };
        assert(n[a] == s[oa]);
        if u == t {
            lemma_kind_unique(s, oa, i);
        }
    }
    assert forall|u: UILayerType| spec_kinds(s).remove(t).contains(u) implies spec_kinds(n).contains(u) by {
        let k = choose|k: int| 0 <= k < s.len() && s[k].layer_type == u;
        if k < i {
            assert(n[k] == s[k]);
        } else {
            assert(k != i);
            assert(n[k - 1] == s[k]);
        }
    }
    assert(spec_kinds(n) =~= spec_kinds(s).remove(t));
}

/// The stack of interface layers, lowest priority first.
#[derive(Debug)]
pub struct UILayerStack {
    layers: Vec<UILayer>,
}

impl View for UILayerStack {
    type V = Seq<UILayer>;

    closed spec fn view(&self) -> Seq<UILayer> {
        self.layers@
    }
}

impl UILayerStack {
    #[verifier::type_invariant]
    closed spec fn wf(self) -> bool {
        stack_wf(self.layers@)
    }

    pub fn new() -> (r: UILayerStack)
        ensures
            r@ == Seq::<UILayer>::empty(),
            stack_wf(r@),
    {
        UILayerStack { layers: Vec::new() }
    }

    /// Adds the layer of a kind at its place by priority; a kind already present is not
    /// added again.
    pub fn push_layer(&mut self, layer_type: UILayerType)
        ensures
            old(self)@.contains(spec_layer(layer_type)) ==> final(self)@ == old(self)@,
            !old(self)@.contains(spec_layer(layer_type)) ==> exists|p: int|
                0 <= p <= old(self)@.len() && final(self)@ == old(self)@.insert(
                    p,
                    spec_layer(layer_type),
                ),
            spec_kinds(final(self)@) == spec_kinds(old(self)@).insert(layer_type),
            stack_wf(final(self)@),
    {
        proof {
            use_type_invariant(&*self);
        }
        if self.has_layer(layer_type) {
            proof {
                let i = choose|i: int| 0 <= i < self.layers@.len() && self.layers@[i].layer_type == layer_type;
                assert(self.layers@[i] == spec_layer(layer_type));
                assert(spec_kinds(self@).insert(layer_type) =~= spec_kinds(self@));
            }
            return;
        }
        let layer = UILayer::new(layer_type);
        let mut pos: usize = 0;
        while pos < self.layers.len()
            invariant
                pos <= self.layers@.len(),
                forall|k: int| 0 <= k < pos ==> self.layers@[k].priority <= layer.priority,
            ensures
                pos <= self.layers@.len(),
                forall|k: int| 0 <= k < pos ==> self.layers@[k].priority <= layer.priority,
                pos < self.layers@.len() ==> self.layers@[pos as int].priority > layer.priority,
            decreases self.layers@.len() - pos,
        {
            if self.layers[pos].priority > layer.priority {
                break;
            }
            pos = pos + 1;
        }
        let ghost old_s = self.layers@;
        proof {
            assert(!old_s.contains(spec_layer(layer_type))) by {
                if old_s.contains(spec_layer(layer_type)) {
                    let i = choose|i: int| 0 <= i < old_s.len() && old_s[i] == spec_layer(layer_type);
                    assert(old_s[i].layer_type == layer_type);
                }
            }
            lemma_insert_layer(old_s, pos as int, layer_type);
            assert(old_s.insert(pos as int, layer) == old_s.insert(pos as int, spec_layer(layer_type)));
        }
        let mut layers: Vec<UILayer> = Vec::new();
        std::mem::swap(&mut layers, &mut self.layers);
        layers.insert(pos, layer);
        self.layers = layers;
    }

    /// Removes and returns the topmost layer.
    pub fn pop_layer(&mut self) -> (r: Option<UILayer>)
        ensures
            old(self)@.len() == 0 ==> r is None && final(self)@ == old(self)@,
            old(self)@.len() > 0 ==> r == Some(old(self)@.last()) && final(self)@ == old(
                self,
            )@.drop_last(),
            stack_wf(final(self)@),
    {
        proof {
            use_type_invariant(&*self);
        }
        let mut layers: Vec<UILayer> = Vec::new();
        std::mem::swap(&mut layers, &mut self.layers);
        let ghost old_s = layers@;
        let r = layers.pop();
        proof {
            if old_s.len() > 0 {
                lemma_remove_layer(old_s, old_s.len() - 1);
                assert(old_s.remove(old_s.len() - 1) =~= old_s.drop_last());
            }
        }
        self.layers = layers;
        r
    }

    /// Removes the layer of a kind, if it is on the stack.
    pub fn remove_layer(&mut self, layer_type: UILayerType)
        ensures
            spec_kinds(final(self)@) == spec_kinds(old(self)@).remove(layer_type),
            !spec_kinds(old(self)@).contains(layer_type) ==> final(self)@ == old(self)@,
            stack_wf(final(self)@),
    {
        proof {
            use_type_invariant(&*self);
        }
        let ghost old_s = self.layers@;
        let mut i: usize = 0;
        while i < self.layers.len()
            invariant
                self.layers@ == old_s,
                old(self)@ == old_s,
                stack_wf(old_s),
                i <= old_s.len(),
                forall|k: int| 0 <= k < i ==> old_s[k].layer_type != layer_type,
            decreases old_s.len() - i,
        {
            if self.layers[i].layer_type == layer_type {
                let mut layers: Vec<UILayer> = Vec::new();
                std::mem::swap(&mut layers, &mut self.layers);
                layers.remove(i);
                proof {
                    lemma_remove_layer(old_s, i as int);
                    assert(spec_kinds(old_s).contains(layer_type));
                }
                self.layers = layers;
                return;
            }
            i = i + 1;
        }
        proof {
            assert(!spec_kinds(old_s).contains(layer_type));
            assert(spec_kinds(old_s).remove(layer_type) =~= spec_kinds(old_s));
        }
    }

    /// The topmost layer, if any.
    pub fn top_layer(&self) -> (r: Option<&UILayer>)
        ensures
            r is None <==> self@.len() == 0,
            r matches Some(l) ==> *l == self@.last(),
            stack_wf(self@),
    {
        proof {
            use_type_invariant(self);
        }
        self.layers.last()
    }

    /// Whether a layer of this kind is on the stack.
    pub fn has_layer(&self, layer_type: UILayerType) -> (r: bool)
        ensures
            r == spec_kinds(self@).contains(layer_type),
            stack_wf(self@),
    {
        proof {
            use_type_invariant(self);
        }
        let mut i: usize = 0;
        while i < self.layers.len()
            invariant
                i <= self.layers@.len(),
                stack_wf(self.layers@),
                forall|k: int| 0 <= k < i ==> self.layers@[k].layer_type != layer_type,
            decreases self.layers@.len() - i,
        {
            if self.layers[i].layer_type == layer_type {
                assert(spec_kinds(self@).contains(layer_type));
                return true;
            }
            i = i + 1;
        }
        false
    }

    /// Removes every layer.
    pub fn clear(&mut self)
        ensures
            final(self)@ == Seq::<UILayer>::empty(),
            stack_wf(final(self)@),
    {
        self.layers = Vec::new();
    }

    pub fn is_empty(&self) -> (r: bool)
        ensures
            r == (self@.len() == 0),
    {
        self.layers.len() == 0
    }

    pub fn len(&self) -> (r: usize)
        ensures
            r == self@.len(),
    {
        self.layers.len()
    }
}

impl Default for UILayerStack {
    fn default() -> (r: UILayerStack)
        ensures
            r@ == Seq::<UILayer>::empty(),
            stack_wf(r@),
    {
        Self::new()
    }
}

/// Two well-formed stacks with the same kinds of layer are the same stack: where a layer
/// goes depends only on its priority, not on when it was pushed.
pub proof fn lemma_stack_determined_by_kinds(s1: Seq<UILayer>, s2: Seq<UILayer>)
    requires
        stack_wf(s1),
        stack_wf(s2),
        spec_kinds(s1) == spec_kinds(s2),
    ensures
        s1 == s2,
    decreases s1.len(),
{
    if s1.len() == 0 {
        if s2.len() > 0 {
            assert(spec_kinds(s2).contains(s2[0].layer_type));
        }
        assert(s1 =~= s2);
    } else if s2.len() == 0 {
        assert(spec_kinds(s1).contains(s1[0].layer_type));
    } else {
        let a = s1.last();
        let b = s2.last();
        assert(spec_kinds(s1).contains(a.layer_type));
        assert(spec_kinds(s2).contains(b.layer_type));
        let j = choose|j: int| 0 <= j < s2.len() && s2[j].layer_type == a.layer_type;
        let i = choose|i: int| 0 <= i < s1.len() && s1[i].layer_type == b.layer_type;
        assert(s2[j] == spec_layer(s2[j].layer_type));
        assert(s1[i] == spec_layer(s1[i].layer_type));
        assert(s1[s1.len() - 1] == spec_layer(s1[s1.len() - 1].layer_type));
        assert(s2[s2.len() - 1] == spec_layer(s2[s2.len() - 1].layer_type));
        if j < s2.len() - 1 {
            assert(s2[j].priority < s2[s2.len() - 1].priority);
        }
        if i < s1.len() - 1 {
            assert(s1[i].priority < s1[s1.len() - 1].priority);
        }
        assert(a.layer_type == b.layer_type);
        lemma_remove_layer(s1, s1.len() - 1);
        lemma_remove_layer(s2, s2.len() - 1);
        assert(s1.remove(s1.len() - 1) =~= s1.drop_last());
        assert(s2.remove(s2.len() - 1) =~= s2.drop_last());
        lemma_stack_determined_by_kinds(s1.drop_last(), s2.drop_last());
        assert(s1 =~= s1.drop_last().push(a));
        assert(s2 =~= s2.drop_last().push(b));
    }
}

/// The topmost layer of a stack has the highest priority of all its layers.
pub proof fn lemma_top_is_highest(s: Seq<UILayer>)
    requires
        stack_wf(s),
        s.len() > 0,
    ensures
        forall|i: int| 0 <= i < s.len() ==> s[i].priority <= s.last().priority,
        forall|t: UILayerType|
            #[trigger] spec_kinds(s).contains(t) ==> spec_priority(t) <= spec_priority(
                s.last().layer_type,
            ),
{
    assert(s[s.len() - 1] == spec_layer(s[s.len() - 1].layer_type));
    assert forall|i: int| 0 <= i < s.len() implies s[i].priority <= s.last().priority by {
        if i < s.len() - 1 {
            assert(s[i].priority < s[s.len() - 1].priority);
        }
    }
    assert forall|t: UILayerType| #[trigger] spec_kinds(s).contains(t) implies spec_priority(t)
        <= spec_priority(s.last().layer_type) by {
        let i = choose|i: int| 0 <= i < s.len() && s[i].layer_type == t;
        assert(s[i] == spec_layer(s[i].layer_type));
        assert(s[i].priority <= s.last().priority);
    }
}

} // verus!
