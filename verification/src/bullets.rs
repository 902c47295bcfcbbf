//! Live bullets and their network deduplication.
//!
//! The attacker's side creates a bullet locally the moment it fires and
//! also broadcasts it with a locally assigned sync id. The remote side
//! creates the bullet on first sight of that id; a duplicated datagram
//! finds the id already present and spawns nothing.

use vstd::prelude::*;
use crate::msg::Vec2i;
use crate::player::PlayerId;

verus! {

/// Monotonic source of bullet sync ids, owned by whichever side currently
/// attacks.
#[derive(Clone, Copy, Debug, PartialEq, Eq, Structural)]
pub struct BulletIdCounter {
    pub next: u64,
}

impl BulletIdCounter {
    pub fn new() -> (r: BulletIdCounter)
        ensures
            r.next == 0,
    {
        BulletIdCounter { next: 0 }
    }

    /// Hand out the next id. Ids are assigned in strictly increasing
    /// order, so no two local bullets ever share one.
    pub fn fresh_id(&mut self) -> (id: u64)
        requires
            old(self).next < u64::MAX,
        ensures
            id == old(self).next,
            final(self).next == old(self).next + 1,
    {
        let id = self.next;
        self.next = self.next + 1;
        id
    }
}

/// One bullet in flight.
#[derive(Clone, Copy, Debug, PartialEq, Eq, Structural)]
pub struct Bullet {
    pub id: u64,
    pub owner: PlayerId,
    pub start_pos: Vec2i,
    pub target_pos: Vec2i,
    pub velocity: Vec2i,
}

/// How many bullets in `s` carry the sync id `id`.
pub open spec fn count_id(s: Seq<Bullet>, id: u64) -> nat
    decreases s.len(),
{
    if s.len() == 0 {
        0
    } else {
        count_id(s.drop_last(), id) + if s.last().id == id {
            1nat
        } else {
            0nat
        }
    }
}

/// The set of live bullets, keyed by sync id.
#[derive(Debug)]
pub struct BulletBoard {
    pub bullets: Vec<Bullet>,
}

impl View for BulletBoard {
    type V = Seq<Bullet>;

    open spec fn view(&self) -> Seq<Bullet> {
        self.bullets@
    }
}

impl BulletBoard {
    /// No two live bullets share a sync id.
    pub open spec fn wf(self) -> bool {
        forall|i: int, j: int|
            0 <= i < j < self@.len() ==> #[trigger] self@[i].id != #[trigger] self@[j].id
    }

    pub open spec fn has_id_spec(self, id: u64) -> bool {
        exists|i: int| 0 <= i < self@.len() && self@[i].id == id
    }

    pub fn new() -> (r: BulletBoard)
        ensures
            r.wf(),
            r@ == Seq::<Bullet>::empty(),
    {
        BulletBoard { bullets: Vec::new() }
    }

    /// Number of bullets in flight.
    pub fn len(&self) -> (n: usize)
        ensures
            n == self@.len(),
    {
        self.bullets.len()
    }

    /// The bullet at a position, for rendering or integration outside.
    pub fn get(&self, i: usize) -> (b: Bullet)
        requires
            i < self@.len(),
        ensures
            b == self@[i as int],
    {
        self.bullets[i]
    }

    /// Whether a bullet with this sync id is already live.
    pub fn has_id(&self, id: u64) -> (r: bool)
        ensures
            r == self.has_id_spec(id),
    {
        let n = self.bullets.len();
        let mut i: usize = 0;
        while i < n
            invariant
                i <= n,
                n == self@.len(),
                forall|j: int| 0 <= j < i ==> self@[j].id != id,
            decreases n - i,
        {
            if self.bullets[i].id == id {
                return true;
            }
            i = i + 1;
        }
        false
    }

    pub open spec fn spawn_spec(self, b: Bullet) -> Seq<Bullet> {
        if self.has_id_spec(b.id) {
            self@
        } else {
            self@.push(b)
        }
    }

    /// Spawn a bullet announced over the network, deduplicating by sync
    /// id: a bullet whose id is already live is a duplicate datagram and
    /// is dropped. Returns whether a bullet was created.
    pub fn spawn(&mut self, b: Bullet) -> (spawned: bool)
        requires
            old(self).wf(),
        ensures
            final(self).wf(),
            final(self)@ == old(self).spawn_spec(b),
            spawned == !old(self).has_id_spec(b.id),
            final(self).has_id_spec(b.id),
    {
        if self.has_id(b.id) {
            false
        } else {
            self.bullets.push(b);
            proof {
                assert(self@[self@.len() - 1].id == b.id);
            }
            true
        }
    }

    /// Remove the bullet with the given id, as when it leaves the field
    /// or strikes something. Order of the remaining bullets is kept.
    pub fn despawn(&mut self, id: u64)
        requires
            old(self).wf(),
        ensures
            final(self).wf(),
            final(self)@ == old(self)@.filter(|b: Bullet| b.id != id),
            !final(self).has_id_spec(id),
    {
        let ghost pre = self.bullets@;
        let mut rest: Vec<Bullet> = Vec::new();
        let n = self.bullets.len();
        let mut i: usize = 0;
        proof {
            assert(pre.subrange(0, 0) =~= Seq::<Bullet>::empty());
            reveal(Seq::filter);
        }
        while i < n
            invariant
                self@ == pre,
                n == pre.len(),
                i <= n,
                rest@ == pre.subrange(0, i as int).filter(|b: Bullet| b.id != id),
            decreases n - i,
        {
            let b = self.bullets[i];
            let ghost prefix = pre.subrange(0, i as int);
            let ghost grown = pre.subrange(0, i + 1);
            if b.id != id {
                rest.push(b);
            }
            proof {
                reveal(Seq::filter);
                assert(grown.drop_last() =~= prefix);
                assert(rest@ =~= grown.filter(|b: Bullet| b.id != id));
            }
            i = i + 1;
        }
        proof {
            assert(pre.subrange(0, n as int) =~= pre);
        }
        self.bullets = rest;
        proof {
            let f = |b: Bullet| b.id != id;
            lemma_filter_distinct_ids(pre, f);
            assert forall|i0: int| 0 <= i0 < self@.len() implies self@[i0].id != id by {
                pre.lemma_filter_pred(f, i0);
            }
        }
    }

    /// Remove every bullet, as the round switch does when the field is
    /// purged.
    pub fn clear(&mut self)
        ensures
            final(self).wf(),
            final(self)@ == Seq::<Bullet>::empty(),
    {
        self.bullets.clear();
    }
}

/// Every element of a filtered sequence occurs in the original.
proof fn lemma_filter_elem_contained(s: Seq<Bullet>, f: spec_fn(Bullet) -> bool)
    ensures
        forall|i: int|
            0 <= i < s.filter(f).len() ==> exists|j: int|
                0 <= j < s.len() && s[j] == #[trigger] s.filter(f)[i],
    decreases s.len(),
{
    reveal(Seq::filter);
    if s.len() > 0 {
        let t = s.drop_last();
        lemma_filter_elem_contained(t, f);
        assert forall|i: int| 0 <= i < s.filter(f).len() implies exists|j: int|
            0 <= j < s.len() && s[j] == #[trigger] s.filter(f)[i] by {
            if i < t.filter(f).len() {
                let j = choose|j: int| 0 <= j < t.len() && t[j] == t.filter(f)[i];
                assert(s[j] == s.filter(f)[i]);
            } else {
                assert(s[s.len() - 1] == s.filter(f)[i]);
            }
        }
    }
}

/// Filtering a sequence with pairwise-distinct ids keeps the ids pairwise
/// distinct.
proof fn lemma_filter_distinct_ids(s: Seq<Bullet>, f: spec_fn(Bullet) -> bool)
    requires
        forall|a: int, b: int| 0 <= a < b < s.len() ==> #[trigger] s[a].id != #[trigger] s[b].id,
    ensures
        forall|a: int, b: int|
            0 <= a < b < s.filter(f).len() ==> #[trigger] s.filter(f)[a].id
                != #[trigger] s.filter(f)[b].id,
    decreases s.len(),
{
    reveal(Seq::filter);
    if s.len() > 0 {
        let t = s.drop_last();
        lemma_filter_distinct_ids(t, f);
        lemma_filter_elem_contained(t, f);
        assert forall|a: int, b: int| 0 <= a < b < s.filter(f).len() implies #[trigger] s.filter(
            f,
        )[a].id != #[trigger] s.filter(f)[b].id by {
            if b < t.filter(f).len() {
            } else {
                assert(s.filter(f)[b] == s.last());
                let j = choose|j: int| 0 <= j < t.len() && t[j] == t.filter(f)[a];
                assert(s[j].id != s[s.len() - 1].id);
            }
        }
    }
}

/// Deduplication of bullet spawns: after a `BulletSpawn` is applied, a
/// bullet with its id is live exactly once, and applying the same message
/// again leaves the board unchanged.
pub proof fn lemma_bullet_spawn_dedup(board: BulletBoard, b: Bullet)
    requires
        board.wf(),
    ensures
        count_id(board.spawn_spec(b), b.id) == 1,
{
    if board.has_id_spec(b.id) {
        lemma_count_id_of_distinct(board@, b.id);
    } else {
        lemma_count_id_absent(board@, b.id);
        assert(board.spawn_spec(b).drop_last() =~= board@);
    }
}

/// In a duplicate-free sequence, a present id is counted exactly once.
proof fn lemma_count_id_of_distinct(s: Seq<Bullet>, id: u64)
    requires
        forall|a: int, b: int| 0 <= a < b < s.len() ==> #[trigger] s[a].id != #[trigger] s[b].id,
        exists|i: int| 0 <= i < s.len() && s[i].id == id,
    ensures
        count_id(s, id) == 1,
    decreases s.len(),
{
    let w = choose|i: int| 0 <= i < s.len() && s[i].id == id;
    if s.last().id == id {
        lemma_count_id_absent(s.drop_last(), id);
    } else {
        assert(0 <= w < s.len() - 1);
        assert(s.drop_last()[w].id == id);
        lemma_count_id_of_distinct(s.drop_last(), id);
    }
}

/// An id that occurs nowhere is counted zero times.
proof fn lemma_count_id_absent(s: Seq<Bullet>, id: u64)
    requires
        forall|i: int| 0 <= i < s.len() ==> s[i].id != id,
    ensures
        count_id(s, id) == 0,
    decreases s.len(),
{
    if s.len() > 0 {
        lemma_count_id_absent(s.drop_last(), id);
    }
}

} // verus!
