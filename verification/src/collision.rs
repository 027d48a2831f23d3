//! Which kinds of object collide with which.

use vstd::prelude::*;

verus! {

#[derive(Debug, Clone, Copy, PartialEq, Eq, Structural)]
pub enum CollisionLayer {
    /// Collides with the world, NPCs, monsters, other players and projectiles.
    Player,
    /// Collides with the world, players, monsters and projectiles.
    NPC,
    /// Collides with the world, players, NPCs, other monsters and projectiles.
    Monster,
    /// Collides with everything.
    World,
    /// Collides with the world only.
    Item,
    /// Collides with players, NPCs, monsters and the world.
    Projectile,
}

/// Behaviour of a collider.
#[derive(Debug, Clone, Copy, PartialEq, Eq, Structural)]
pub enum CollisionType {
    /// Moves, and collides with everything.
    Dynamic,
    /// Does not move, and blocks what moves.
    Static,
    /// Reports contact without blocking.
    Trigger,
}

/// Level of detail of a collision shape.
#[derive(Debug, Clone, Copy, PartialEq, Eq, Structural)]
pub enum CollisionDetail {
    /// Bounding box or sphere.
    Low,
    /// Simplified hull.
    Medium,
    /// Detailed convex hull.
    High,
}

/// Which shape an automatically made collider prefers.
#[derive(Debug, Clone, Copy, PartialEq, Eq, Structural)]
pub enum PreferredShape {
    Box,
    Sphere,
    ConvexHull,
    Auto,
}

/// The players, NPCs and monsters: the creatures of the world.
pub open spec fn is_creature(l: CollisionLayer) -> bool {
    l == CollisionLayer::Player || l == CollisionLayer::NPC || l == CollisionLayer::Monster
}

/// Whether objects on two layers collide.
pub open spec fn spec_can_collide(a: CollisionLayer, b: CollisionLayer) -> bool {
    if a == CollisionLayer::World || b == CollisionLayer::World {
        true
    } else if a == CollisionLayer::Item || b == CollisionLayer::Item {
        false
    } else if a == CollisionLayer::Projectile && b == CollisionLayer::Projectile {
        false
    } else {
        !(a == CollisionLayer::NPC && b == CollisionLayer::NPC)
    }
}

impl CollisionLayer {
    pub fn can_collide_with(&self, other: &CollisionLayer) -> (r: bool)
        ensures
            r == spec_can_collide(*self, *other),
    {
        match (self, other) {
            (CollisionLayer::World, _) | (_, CollisionLayer::World) => true,
            (CollisionLayer::Player, CollisionLayer::NPC)
            | (CollisionLayer::NPC, CollisionLayer::Player) => true,
            (CollisionLayer::Player, CollisionLayer::Monster)
            | (CollisionLayer::Monster, CollisionLayer::Player) => true,
            (CollisionLayer::Player, CollisionLayer::Player) => true,
            (CollisionLayer::NPC, CollisionLayer::Monster)
            | (CollisionLayer::Monster, CollisionLayer::NPC) => true,
            (CollisionLayer::Monster, CollisionLayer::Monster) => true,
            (CollisionLayer::Projectile, CollisionLayer::Player)
            | (CollisionLayer::Player, CollisionLayer::Projectile) => true,
            (CollisionLayer::Projectile, CollisionLayer::NPC)
            | (CollisionLayer::NPC, CollisionLayer::Projectile) => true,
            (CollisionLayer::Projectile, CollisionLayer::Monster)
            | (CollisionLayer::Monster, CollisionLayer::Projectile) => true,
            (CollisionLayer::Item, _) | (_, CollisionLayer::Item) => false,
            (CollisionLayer::Projectile, CollisionLayer::Projectile) => false,
            _ => false,
        }
    }
}

/// Collision goes both ways; the world collides with everything; items collide with the
/// world only; projectiles pass through each other; creatures collide with each other and
/// with projectiles, except that two NPCs pass through each other.
pub proof fn lemma_collision_rules(a: CollisionLayer, b: CollisionLayer)
    ensures
        spec_can_collide(a, b) == spec_can_collide(b, a),
        spec_can_collide(CollisionLayer::World, b),
        a == CollisionLayer::Item ==> (spec_can_collide(a, b) <==> b == CollisionLayer::World),
        !spec_can_collide(CollisionLayer::Projectile, CollisionLayer::Projectile),
        is_creature(a) && b == CollisionLayer::Projectile ==> spec_can_collide(a, b),
        is_creature(a) && is_creature(b) ==> (spec_can_collide(a, b) <==> !(a
            == CollisionLayer::NPC && b == CollisionLayer::NPC)),
{
}

/// What the collision pass knows of a collider: its entity id, layer and behaviour.
#[derive(Debug, Clone, Copy, PartialEq, Eq, Structural)]
pub struct ColliderInfo {
    pub entity: u64,
    pub layer: CollisionLayer,
    pub collision_type: CollisionType,
}

/// An event that a new contact raises. `pair` is the position of the candidate pair that
/// raised it, so that the caller can attach the contact point and depth it measured.
#[derive(Debug, Clone, Copy, PartialEq, Eq, Structural)]
pub enum CollisionEvent {
    /// `entered_by` entered the trigger zone `trigger`.
    TriggerEntered { trigger: u64, entered_by: u64, pair: usize },
    /// Two solid colliders started touching.
    CollisionStarted { entity_a: u64, entity_b: u64, pair: usize },
}

/// The first collider of entity `e` at or after position `i`.
pub open spec fn spec_find_collider(s: Seq<ColliderInfo>, e: u64, i: int) -> Option<ColliderInfo>
    decreases s.len() - i,
{
    if i < 0 || i >= s.len() {
        None
    } else if s[i].entity == e {
        Some(s[i])
    } else {
        spec_find_collider(s, e, i + 1)
    }
}

/// A pair with the smaller id first.
pub open spec fn spec_ordered_pair(a: u64, b: u64) -> (u64, u64) {
    if a < b {
        (a, b)
    } else {
        (b, a)
    }
}

/// The events of a new contact between `a` and `b` found as pair `i`: trigger events for
/// each trigger among them (`a`'s first), or a started collision when neither is a trigger.
pub open spec fn spec_contact_events(a: ColliderInfo, b: ColliderInfo, i: int) -> Seq<CollisionEvent> {
    let ta = a.collision_type == CollisionType::Trigger;
    let tb = b.collision_type == CollisionType::Trigger;
    if !ta && !tb {
        seq![CollisionEvent::CollisionStarted { entity_a: a.entity, entity_b: b.entity, pair: i as usize }]
    } else {
        (if ta {
            seq![CollisionEvent::TriggerEntered { trigger: a.entity, entered_by: b.entity, pair: i as usize }]
        } else {
            Seq::empty()
        }) + (if tb {
            seq![CollisionEvent::TriggerEntered { trigger: b.entity, entered_by: a.entity, pair: i as usize }]
        } else {
            Seq::empty()
        })
    }
}

/// The events and the checked pairs after the first `n` candidate pairs. A pair of one
/// entity with itself is skipped; a pair already checked (either way round) is skipped; a
/// pair whose entities are both known, whose layers collide, which touches and which was not
/// touching before (either way round in `previous`) raises its events.
pub open spec fn spec_collision_events(
    colliders: Seq<ColliderInfo>,
    pairs: Seq<(u64, u64)>,
    touching: Seq<bool>,
    previous: Seq<(u64, u64)>,
    n: int,
) -> (Seq<CollisionEvent>, Seq<(u64, u64)>)
    decreases n,
{
    if n <= 0 {
        (Seq::empty(), Seq::empty())
    } else {
        let acc = spec_collision_events(colliders, pairs, touching, previous, n - 1);
        let i = n - 1;
        let a = pairs[i].0;
        let b = pairs[i].1;
        let key = spec_ordered_pair(a, b);
        if a == b || acc.1.contains(key) {
            acc
        } else {
            let checked = acc.1.push(key);
            match (spec_find_collider(colliders, a, 0), spec_find_collider(colliders, b, 0)) {
                (Some(ca), Some(cb)) => if spec_can_collide(ca.layer, cb.layer) && touching[i]
                    && !previous.contains((a, b)) && !previous.contains((b, a)) {
                    (acc.0 + spec_contact_events(ca, cb, i), checked)
                } else {
                    (acc.0, checked)
                },
                _ => (acc.0, checked),
            }
        }
    }
}

/// Each pair is checked at most once a frame, whichever way round it comes: the checked
/// pairs hold no pair twice, and each has the smaller id first.
pub proof fn lemma_pairs_checked_once(
    colliders: Seq<ColliderInfo>,
    pairs: Seq<(u64, u64)>,
    touching: Seq<bool>,
    previous: Seq<(u64, u64)>,
    n: int,
)
    requires
        n <= pairs.len(),
    ensures
        spec_collision_events(colliders, pairs, touching, previous, n).1.no_duplicates(),
        forall|k: int|
            0 <= k < spec_collision_events(colliders, pairs, touching, previous, n).1.len() ==> (
            #[trigger] spec_collision_events(colliders, pairs, touching, previous, n).1[k]).0
                <= spec_collision_events(colliders, pairs, touching, previous, n).1[k].1,
    decreases n,
{
    if n > 0 {
        lemma_pairs_checked_once(colliders, pairs, touching, previous, n - 1);
        let acc = spec_collision_events(colliders, pairs, touching, previous, n - 1);
        let key = spec_ordered_pair(pairs[n - 1].0, pairs[n - 1].1);
        if !(pairs[n - 1].0 == pairs[n - 1].1 || acc.1.contains(key)) {
            let c = acc.1.push(key);
            assert forall|x: int, y: int| 0 <= x < y < c.len() implies c[x] != c[y] by {
                if y == c.len() - 1 {
                    assert(acc.1[x] == c[x]);
                }
            }
        }
    }
}

/// The position of the candidate pair that raised an event.
pub open spec fn event_pair(e: CollisionEvent) -> int {
    match e {
        CollisionEvent::TriggerEntered { pair, .. } => pair as int,
        CollisionEvent::CollisionStarted { pair, .. } => pair as int,
    }
}

/// The two entities that an event names: the trigger and who entered it, or the two
/// colliders that started touching.
pub open spec fn event_entities(e: CollisionEvent) -> (u64, u64) {
    match e {
        CollisionEvent::TriggerEntered { trigger, entered_by, .. } => (trigger, entered_by),
        CollisionEvent::CollisionStarted { entity_a, entity_b, .. } => (entity_a, entity_b),
    }
}

/// Whether `e` reports a contact that is new this frame: its pair is one of the candidate
/// pairs, of two different known entities whose layers collide, the shape test found them
/// touching, they were not touching before (in neither order), and the event names those
/// two entities.
pub open spec fn is_new_contact_event(
    colliders: Seq<ColliderInfo>,
    pairs: Seq<(u64, u64)>,
    touching: Seq<bool>,
    previous: Seq<(u64, u64)>,
    e: CollisionEvent,
) -> bool {
    let i = event_pair(e);
    let a = pairs[i].0;
    let b = pairs[i].1;
    &&& 0 <= i < pairs.len()
    &&& touching[i]
    &&& a != b
    &&& !previous.contains((a, b))
    &&& !previous.contains((b, a))
    &&& event_entities(e) == (a, b) || event_entities(e) == (b, a)
    &&& spec_find_collider(colliders, a, 0) is Some
    &&& spec_find_collider(colliders, b, 0) is Some
    &&& spec_can_collide(
        spec_find_collider(colliders, a, 0).unwrap().layer,
        spec_find_collider(colliders, b, 0).unwrap().layer,
    )
}

/// Only new contacts raise events: every event of a frame comes from a candidate pair of two
/// known entities whose layers collide, which the shape test found touching, and which was
/// not in last frame's contacts in either order. A contact that lasts raises nothing again.
pub proof fn lemma_events_are_new_contacts(
    colliders: Seq<ColliderInfo>,
    pairs: Seq<(u64, u64)>,
    touching: Seq<bool>,
    previous: Seq<(u64, u64)>,
    n: int,
)
    requires
        n <= pairs.len() <= usize::MAX,
    ensures
        forall|k: int|
            0 <= k < spec_collision_events(colliders, pairs, touching, previous, n).0.len()
                ==> is_new_contact_event(
                colliders,
                pairs,
                touching,
                previous,
                #[trigger] spec_collision_events(colliders, pairs, touching, previous, n).0[k],
            ),
    decreases n,
{
    if n > 0 {
        lemma_events_are_new_contacts(colliders, pairs, touching, previous, n - 1);
        let acc = spec_collision_events(colliders, pairs, touching, previous, n - 1);
        let i = n - 1;
        let a = pairs[i].0;
        let b = pairs[i].1;
        let key = spec_ordered_pair(a, b);
        if !(a == b || acc.1.contains(key)) {
            match (spec_find_collider(colliders, a, 0), spec_find_collider(colliders, b, 0)) {
                (Some(ca), Some(cb)) => {
                    if spec_can_collide(ca.layer, cb.layer) && touching[i] && !previous.contains(
                        (a, b),
                    ) && !previous.contains((b, a)) {
                        lemma_found_collider(colliders, a, 0);
                        lemma_found_collider(colliders, b, 0);
                        let ev = spec_contact_events(ca, cb, i);
                        let all = acc.0 + ev;
                        assert(forall|j: int| 0 <= j < ev.len() ==> event_pair(#[trigger] ev[j]) == i);
                        assert(forall|j: int|
                            0 <= j < ev.len() ==> event_entities(#[trigger] ev[j]) == (a, b)
                                || event_entities(ev[j]) == (b, a));
                        assert forall|k: int| 0 <= k < all.len() implies is_new_contact_event(
                            colliders,
                            pairs,
                            touching,
                            previous,
                            #[trigger] all[k],
                        ) by {
                            if k >= acc.0.len() {
                                assert(all[k] == ev[k - acc.0.len()]);
                            } else {
                                assert(all[k] == acc.0[k]);
                            }
                        }
                    }
                },
                _ => {},
            }
        }
    }
}

/// Whether candidate pair `i` is a new contact: two different known entities whose layers
/// collide, found touching by the shape test, not touching last frame (in neither order), and
/// not the same two entities as an earlier candidate pair of the frame (in either order).
pub open spec fn is_new_contact_at(
    colliders: Seq<ColliderInfo>,
    pairs: Seq<(u64, u64)>,
    touching: Seq<bool>,
    previous: Seq<(u64, u64)>,
    i: int,
) -> bool {
    let a = pairs[i].0;
    let b = pairs[i].1;
    &&& 0 <= i < pairs.len()
    &&& touching[i]
    &&& a != b
    &&& !previous.contains((a, b))
    &&& !previous.contains((b, a))
    &&& spec_find_collider(colliders, a, 0) is Some
    &&& spec_find_collider(colliders, b, 0) is Some
    &&& spec_can_collide(
        spec_find_collider(colliders, a, 0).unwrap().layer,
        spec_find_collider(colliders, b, 0).unwrap().layer,
    )
    &&& forall|j: int|
        0 <= j < i && pairs[j].0 != pairs[j].1 ==> spec_ordered_pair(a, b) != spec_ordered_pair(
            #[trigger] pairs[j].0,
            pairs[j].1,
        )
}

/// The pairs checked after the first `n` candidates are, smaller id first, those of the
/// candidates of two different entities.
proof fn lemma_checked_pairs(
    colliders: Seq<ColliderInfo>,
    pairs: Seq<(u64, u64)>,
    touching: Seq<bool>,
    previous: Seq<(u64, u64)>,
    n: int,
)
    requires
        0 <= n <= pairs.len(),
    ensures
        forall|key: (u64, u64)|
            #[trigger] spec_collision_events(colliders, pairs, touching, previous, n).1.contains(
                key,
            ) <==> exists|j: int|
                0 <= j < n && pairs[j].0 != pairs[j].1 && spec_ordered_pair(
                    #[trigger] pairs[j].0,
                    pairs[j].1,
                ) == key,
    decreases n,
{
    if n > 0 {
        lemma_checked_pairs(colliders, pairs, touching, previous, n - 1);
        let acc = spec_collision_events(colliders, pairs, touching, previous, n - 1);
        let cur = spec_collision_events(colliders, pairs, touching, previous, n);
        let i = n - 1;
        let key_i = spec_ordered_pair(pairs[i].0, pairs[i].1);
        assert forall|key: (u64, u64)| cur.1.contains(key) implies exists|j: int|
            0 <= j < n && pairs[j].0 != pairs[j].1 && spec_ordered_pair(
                #[trigger] pairs[j].0,
                pairs[j].1,
            ) == key by {
            if acc.1.contains(key) {
                let j = choose|j: int|
                    0 <= j < n - 1 && pairs[j].0 != pairs[j].1 && spec_ordered_pair(
                        #[trigger] pairs[j].0,
                        pairs[j].1,
                    ) == key;
                assert(0 <= j < n && pairs[j].0 != pairs[j].1);
            } else {
                let ci = choose|x: int| 0 <= x < cur.1.len() && cur.1[x] == key;
                assert(cur.1 == acc.1.push(key_i));
                assert(ci == acc.1.len());
                assert(pairs[i].0 != pairs[i].1 && spec_ordered_pair(pairs[i].0, pairs[i].1) == key);
            }
        }
        assert forall|key: (u64, u64)|
            (exists|j: int|
                0 <= j < n && pairs[j].0 != pairs[j].1 && spec_ordered_pair(
                    #[trigger] pairs[j].0,
                    pairs[j].1,
                ) == key) implies cur.1.contains(key) by {
            let j = choose|j: int|
                0 <= j < n && pairs[j].0 != pairs[j].1 && spec_ordered_pair(
                    #[trigger] pairs[j].0,
                    pairs[j].1,
                ) == key;
            if j < n - 1 {
                assert(acc.1.contains(key));
                if !(pairs[i].0 == pairs[i].1 || acc.1.contains(key_i)) {
                    assert(cur.1 == acc.1.push(key_i));
                    let x = choose|x: int| 0 <= x < acc.1.len() && acc.1[x] == key;
                    assert(cur.1[x] == key);
                }
            } else {
                if !acc.1.contains(key_i) {
                    assert(cur.1 == acc.1.push(key_i));
                    assert(cur.1[acc.1.len() as int] == key);
                }
            }
        }
    }
}

/// Every new contact is reported: each candidate pair that is a new contact raises at least
/// one event, and that event carries the pair's position.
pub proof fn lemma_new_contacts_raise_events(
    colliders: Seq<ColliderInfo>,
    pairs: Seq<(u64, u64)>,
    touching: Seq<bool>,
    previous: Seq<(u64, u64)>,
    n: int,
)
    requires
        0 <= n <= pairs.len() <= usize::MAX,
    ensures
        forall|i: int|
            0 <= i < n && #[trigger] is_new_contact_at(colliders, pairs, touching, previous, i)
                ==> exists|k: int|
                0 <= k < spec_collision_events(colliders, pairs, touching, previous, n).0.len()
                    && event_pair(
                    #[trigger] spec_collision_events(colliders, pairs, touching, previous, n).0[k],
                ) == i,
    decreases n,
{
    if n > 0 {
        lemma_new_contacts_raise_events(colliders, pairs, touching, previous, n - 1);
        lemma_checked_pairs(colliders, pairs, touching, previous, n - 1);
        let acc = spec_collision_events(colliders, pairs, touching, previous, n - 1);
        let cur = spec_collision_events(colliders, pairs, touching, previous, n);
        let i = n - 1;
        let a = pairs[i].0;
        let b = pairs[i].1;
        let key_i = spec_ordered_pair(a, b);
        assert(cur.0.len() >= acc.0.len());
        assert(forall|k: int| 0 <= k < acc.0.len() ==> cur.0[k] == acc.0[k]);
        assert forall|m: int|
            0 <= m < n && #[trigger] is_new_contact_at(colliders, pairs, touching, previous, m)
                implies exists|k: int| 0 <= k < cur.0.len() && event_pair(#[trigger] cur.0[k]) == m by {
            if m < n - 1 {
                let k = choose|k: int| 0 <= k < acc.0.len() && event_pair(#[trigger] acc.0[k]) == m;
                assert(cur.0[k] == acc.0[k]);
            } else {
                if acc.1.contains(key_i) {
                    let j = choose|j: int|
                        0 <= j < n - 1 && pairs[j].0 != pairs[j].1 && spec_ordered_pair(
                            #[trigger] pairs[j].0,
                            pairs[j].1,
                        ) == key_i;
                    assert(false);
                }
                let ca = spec_find_collider(colliders, a, 0).unwrap();
                let cb = spec_find_collider(colliders, b, 0).unwrap();
                let ev = spec_contact_events(ca, cb, i);
                assert(cur.0 == acc.0 + ev);
                assert(ev.len() > 0);
                assert(event_pair(ev[0]) == i);
                assert(cur.0[acc.0.len() as int] == ev[0]);
            }
        }
    }
}

proof fn lemma_found_collider(s: Seq<ColliderInfo>, e: u64, i: int)
    ensures
        spec_find_collider(s, e, i) matches Some(c) ==> c.entity == e,
    decreases s.len() - i,
{
    if 0 <= i < s.len() && s[i].entity != e {
        lemma_found_collider(s, e, i + 1);
    }
}

fn find_collider(colliders: &Vec<ColliderInfo>, e: u64) -> (r: Option<ColliderInfo>)
    ensures
        r == spec_find_collider(colliders@, e, 0),
{
    let mut i: usize = 0;
    while i < colliders.len()
        invariant
            i <= colliders@.len(),
            spec_find_collider(colliders@, e, 0) == spec_find_collider(colliders@, e, i as int),
        decreases colliders@.len() - i,
    {
        if colliders[i].entity == e {
            return Some(colliders[i]);
        }
        i = i + 1;
    }
    None
}

fn contains_pair(s: &Vec<(u64, u64)>, p: (u64, u64)) -> (r: bool)
    ensures
        r == s@.contains(p),
{
    let mut i: usize = 0;
    while i < s.len()
        invariant
            i <= s@.len(),
            forall|k: int| 0 <= k < i ==> s@[k] != p,
        decreases s@.len() - i,
    {
        if s[i].0 == p.0 && s[i].1 == p.1 {
            assert(s@[i as int] == p);
            return true;
        }
        i = i + 1;
    }
    false
}

/// Turns the candidate pairs of a frame, with what the shape test found for each
/// (`touching`), into the events of new contacts; also returns the pairs checked, smaller id
/// first, in the order they were checked.
pub fn collision_events(
    colliders: &Vec<ColliderInfo>,
    pairs: &Vec<(u64, u64)>,
    touching: &Vec<bool>,
    previous: &Vec<(u64, u64)>,
) -> (r: (Vec<CollisionEvent>, Vec<(u64, u64)>))
    requires
        pairs@.len() == touching@.len(),
    ensures
        (r.0@, r.1@) == spec_collision_events(
            colliders@,
            pairs@,
            touching@,
            previous@,
            pairs@.len() as int,
        ),
        r.1@.no_duplicates(),
        forall|k: int|
            0 <= k < r.0@.len() ==> is_new_contact_event(
                colliders@,
                pairs@,
                touching@,
                previous@,
                #[trigger] r.0@[k],
            ),
        forall|i: int|
            0 <= i < pairs@.len() && #[trigger] is_new_contact_at(
                colliders@,
                pairs@,
                touching@,
                previous@,
                i,
            ) ==> exists|k: int| 0 <= k < r.0@.len() && event_pair(#[trigger] r.0@[k]) == i,
{
    let pair_count: usize = pairs.len();
    proof {
        lemma_pairs_checked_once(colliders@, pairs@, touching@, previous@, pairs@.len() as int);
    }
    let mut events: Vec<CollisionEvent> = Vec::new();
    let mut checked: Vec<(u64, u64)> = Vec::new();
    let mut i: usize = 0;
    while i < pairs.len()
        invariant
            i <= pairs@.len() == touching@.len(),
            (events@, checked@) == spec_collision_events(
                colliders@,
                pairs@,
                touching@,
                previous@,
                i as int,
            ),
        decreases pairs@.len() - i,
    {
        let a = pairs[i].0;
        let b = pairs[i].1;
        if a != b {
            let key = if a < b {
                (a, b)
            } else {
                (b, a)
            };
            if !contains_pair(&checked, key) {
                checked.push(key);
                match (find_collider(colliders, a), find_collider(colliders, b)) {
                    (Some(ca), Some(cb)) => {
                        if ca.layer.can_collide_with(&cb.layer) && touching[i] && !contains_pair(
                            previous,
                            (a, b),
                        ) && !contains_pair(previous, (b, a)) {
                            let ta = ca.collision_type == CollisionType::Trigger;
                            let tb = cb.collision_type == CollisionType::Trigger;
                            let ghost before = events@;
                            proof {
                                lemma_found_collider(colliders@, a, 0);
                                lemma_found_collider(colliders@, b, 0);
                            }
                            if ta {
                                events.push(
                                    CollisionEvent::TriggerEntered {
                                        trigger: a,
                                        entered_by: b,
                                        pair: i,
                                    },
                                );
                            }
                            if tb {
                                events.push(
                                    CollisionEvent::TriggerEntered {
                                        trigger: b,
                                        entered_by: a,
                                        pair: i,
                                    },
                                );
                            }
                            if !ta && !tb {
                                events.push(
                                    CollisionEvent::CollisionStarted {
                                        entity_a: a,
                                        entity_b: b,
                                        pair: i,
                                    },
                                );
                            }
                            assert(events@ =~= before + spec_contact_events(ca, cb, i as int));
                        }
                    },
                    _ => {},
                }
            }
        }
        i = i + 1;
    }
    proof {
        lemma_events_are_new_contacts(colliders@, pairs@, touching@, previous@, pair_count as int);
        lemma_new_contacts_raise_events(colliders@, pairs@, touching@, previous@, pair_count as int);
        assert(events@ == spec_collision_events(colliders@, pairs@, touching@, previous@, pair_count as int).0);
    }
    (events, checked)
}

} // verus!
