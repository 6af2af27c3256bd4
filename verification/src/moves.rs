use vstd::prelude::*;
use std::cmp::Ordering;

verus! {

broadcast use vstd::seq_lib::group_to_multiset_ensures;

/// A pending travel step of a player: who travels, in which universe, whether
/// it is the last step, and when it ends.
#[derive(Clone, Copy, Debug, PartialEq, Eq, Structural)]
pub struct PlayerMove {
    pub player_id: u64,
    /// Object id of the universe (its twelve bytes, big-endian).
    pub universe_id: u128,
    pub is_end: bool,
    pub step_end_timestamp: u64,
}

/// Order of two moves by their end: the move that ends later is the smaller,
/// so that a max-first queue hands out the earliest end first.
pub open spec fn move_order(a: PlayerMove, b: PlayerMove) -> Ordering {
    if a.step_end_timestamp > b.step_end_timestamp {
        Ordering::Less
    } else if a.step_end_timestamp < b.step_end_timestamp {
        Ordering::Greater
    } else {
        Ordering::Equal
    }
}

/// The opposite order.
pub open spec fn reversed(o: Ordering) -> Ordering {
    match o {
        Ordering::Less => Ordering::Greater,
        Ordering::Equal => Ordering::Equal,
        Ordering::Greater => Ordering::Less,
    }
}

impl PlayerMove {
    /// A move for a player's document, ending at `step_end_timestamp`.
    pub fn new_from_player_doc(
        player_id: u64,
        universe_id: u128,
        step_end_timestamp: u64,
        is_end: bool,
    ) -> (m: PlayerMove)
        ensures
            m.player_id == player_id,
            m.universe_id == universe_id,
            m.step_end_timestamp == step_end_timestamp,
            m.is_end == is_end,
    {
        PlayerMove { player_id, universe_id, is_end, step_end_timestamp }
    }

    /// Compares two moves by end, reversed: a later end is `Less`.
    pub fn cmp(&self, other: &Self) -> (o: Ordering)
        ensures
            o == move_order(*self, *other),
    {
        if self.step_end_timestamp > other.step_end_timestamp {
            Ordering::Less
        } else if self.step_end_timestamp < other.step_end_timestamp {
            Ordering::Greater
        } else {
            Ordering::Equal
        }
    }

    /// Same as `cmp`, always defined.
    pub fn partial_cmp(&self, other: &Self) -> (o: Option<Ordering>)
        ensures
            o == Some(move_order(*self, *other)),
    {
        Some(self.cmp(other))
    }
}

/// Swapping the two moves reverses their order, and two moves compare equal
/// exactly when they end at the same time.
pub proof fn law_move_order_reverses(a: PlayerMove, b: PlayerMove)
    ensures
        move_order(a, b) == reversed(move_order(b, a)),
        (move_order(a, b) == Ordering::Equal) <==> (a.step_end_timestamp == b.step_end_timestamp),
        (move_order(a, b) == Ordering::Less) <==> (a.step_end_timestamp > b.step_end_timestamp),
{
}

/// Moves listed by end, earliest first.
pub open spec fn ends_sorted(s: Seq<PlayerMove>) -> bool {
    forall|i: int, j: int|
        0 <= i <= j < s.len() ==> s[i].step_end_timestamp <= s[j].step_end_timestamp
}

/// Whether a move belongs to the given player in the given universe.
pub open spec fn is_move_of(m: PlayerMove, player_id: u64, universe_id: u128) -> bool {
    m.player_id == player_id && m.universe_id == universe_id
}

/// The moves that are not the given player's in the given universe.
pub open spec fn keep_others(player_id: u64, universe_id: u128) -> spec_fn(PlayerMove) -> bool {
    |m: PlayerMove| !is_move_of(m, player_id, universe_id)
}

fn copy_moves(v: &Vec<PlayerMove>) -> (r: Vec<PlayerMove>)
    ensures
        r@ == v@,
{
    let mut r: Vec<PlayerMove> = Vec::new();
    let mut i: usize = 0;
    while i < v.len()
        invariant
            i <= v.len(),
            r@ == v@.take(i as int),
        decreases v.len() - i,
    {
        r.push(v[i]);
        assert(v@.take(i + 1) =~= v@.take(i as int).push(v@[i as int]));
        i += 1;
    }
    assert(v@.take(v.len() as int) =~= v@);
    r
}

/// The pending moves of all players, handed out earliest end first.
pub struct MoveList {
    moves: Vec<PlayerMove>,
}

impl View for MoveList {
    type V = Seq<PlayerMove>;

    closed spec fn view(&self) -> Seq<PlayerMove> {
        self.moves@
    }
}

impl MoveList {
    #[verifier::type_invariant]
    closed spec fn sorted(&self) -> bool {
        ends_sorted(self.moves@)
    }

    /// An empty list.
    pub fn new() -> (l: MoveList)
        ensures
            l@ == Seq::<PlayerMove>::empty(),
            ends_sorted(l@),
    {
        MoveList { moves: Vec::new() }
    }

    /// Number of pending moves.
    pub fn len(&self) -> (n: usize)
        ensures
            n == self@.len(),
            ends_sorted(self@),
    {
        proof {
            use_type_invariant(self);
        }
        self.moves.len()
    }

    /// Whether no move is pending.
    pub fn is_empty(&self) -> (b: bool)
        ensures
            b == (self@.len() == 0),
    {
        self.moves.len() == 0
    }

    /// The pending moves, earliest end first.
    pub fn moves(&self) -> (v: Vec<PlayerMove>)
        ensures
            v@ == self@,
            ends_sorted(v@),
    {
        proof {
            use_type_invariant(self);
        }
        copy_moves(&self.moves)
    }

    /// Whether some move ends strictly before `now`.
    pub fn has_due(&self, now: u64) -> (due: bool)
        ensures
            due == exists|i: int| 0 <= i < self@.len() && #[trigger] self@[i].step_end_timestamp < now,
    {
        proof {
            use_type_invariant(self);
        }
        if self.moves.len() == 0 {
            false
        } else {
            let first = self.moves[0].step_end_timestamp;
            proof {
                if first >= now {
                    assert forall|i: int| 0 <= i < self@.len() implies !(#[trigger] self@[i].step_end_timestamp < now) by {
                        assert(self.moves@[0].step_end_timestamp <= self.moves@[i].step_end_timestamp);
                    }
                } else {
                    assert(self@[0].step_end_timestamp < now);
                }
            }
            first < now
        }
    }

    /// Adds a move; the list keeps its order by end.
    pub fn push(&mut self, m: PlayerMove)
        ensures
            final(self)@.to_multiset() == old(self)@.to_multiset().insert(m),
            final(self)@.len() == old(self)@.len() + 1,
            ends_sorted(final(self)@),
    {
        proof {
            use_type_invariant(&*self);
        }
        let n = self.moves.len();
        let mut k: usize = 0;
        while k < n && self.moves[k].step_end_timestamp <= m.step_end_timestamp
            invariant
                n == self.moves.len(),
                k <= n,
                forall|i: int| 0 <= i < k ==> self.moves@[i].step_end_timestamp <= m.step_end_timestamp,
            decreases n - k,
        {
            k += 1;
        }
        let ghost before = self.moves@;
        proof {
            vstd::seq_lib::to_multiset_insert(before, k as int, m);
            let after = before.insert(k as int, m);
            assert forall|i: int, j: int|
                0 <= i <= j < after.len() implies after[i].step_end_timestamp
                <= after[j].step_end_timestamp by {
                if i < k as int && j < k as int {
                } else if i < k as int && j == k as int {
                } else if i < k as int {
                    assert(after[j] == before[j - 1]);
                } else if i == k as int && j == k as int {
                } else if i == k as int {
                    assert(after[j] == before[j - 1]);
                    assert(before[k as int].step_end_timestamp <= before[j - 1].step_end_timestamp);
                } else {
                    assert(after[i] == before[i - 1]);
                    assert(after[j] == before[j - 1]);
                }
            }
        }
        let mut v = copy_moves(&self.moves);
        v.insert(k, m);
        self.moves = v;
    }

    /// The move that ends first, if any.
    pub fn peek(&self) -> (r: Option<&PlayerMove>)
        ensures
            r is None <==> self@.len() == 0,
            r matches Some(m) ==> *m == self@[0] && (forall|i: int|
                0 <= i < self@.len() ==> m.step_end_timestamp <= #[trigger] self@[i].step_end_timestamp),
    {
        proof {
            use_type_invariant(self);
        }
        if self.moves.len() == 0 {
            None
        } else {
            Some(&self.moves[0])
        }
    }

    /// Takes out the move that ends first, if any.
    pub fn pop(&mut self) -> (r: Option<PlayerMove>)
        ensures
            old(self)@.len() == 0 ==> r is None && final(self)@ == old(self)@,
            old(self)@.len() > 0 ==> r == Some(old(self)@[0]) && final(self)@ == old(
                self,
            )@.drop_first(),
            r matches Some(m) ==> forall|i: int|
                0 <= i < old(self)@.len() ==> m.step_end_timestamp
                    <= #[trigger] old(self)@[i].step_end_timestamp,
            ends_sorted(final(self)@),
    {
        proof {
            use_type_invariant(&*self);
        }
        if self.moves.len() == 0 {
            None
        } else {
            let ghost before = self.moves@;
            proof {
                assert(before.remove(0) =~= before.drop_first());
            }
            let mut v = copy_moves(&self.moves);
            let m = v.remove(0);
            self.moves = v;
            Some(m)
        }
    }

    /// Drops every move of the given player in the given universe; the other
    /// moves stay, in order.
    pub fn remove_player(&mut self, player_id: u64, universe_id: u128)
        ensures
            final(self)@ == old(self)@.filter(keep_others(player_id, universe_id)),
            ends_sorted(final(self)@),
    {
        proof {
            use_type_invariant(&*self);
        }
        let ghost s = self.moves@;
        let ghost p = keep_others(player_id, universe_id);
        let n = self.moves.len();
        let mut kept: Vec<PlayerMove> = Vec::new();
        let mut i: usize = 0;
        while i < n
            invariant
                n == self.moves.len(),
                s == self.moves@,
                p == keep_others(player_id, universe_id),
                ends_sorted(s),
                i <= n,
                kept@ == s.take(i as int).filter(p),
                ends_sorted(kept@),
                forall|a: int, b: int|
                    0 <= a < kept@.len() && i <= b < n ==> #[trigger] kept@[a].step_end_timestamp
                        <= #[trigger] s[b].step_end_timestamp,
            decreases n - i,
        {
            let m = self.moves[i];
            proof {
                assert(s.take(i + 1) =~= s.take(i as int).push(m));
                s.take(i as int).lemma_filter_push(m, p);
            }
            if !(m.player_id == player_id && m.universe_id == universe_id) {
                kept.push(m);
            }
            i += 1;
        }
        proof {
            assert(s.take(n as int) =~= s);
        }
        self.moves = kept;
    }

    /// Takes out, earliest end first, every move that ends strictly before
    /// `now`; the moves that end at `now` or later stay.
    pub fn pop_due(&mut self, now: u64) -> (due: Vec<PlayerMove>)
        ensures
            due@ + final(self)@ == old(self)@,
            forall|i: int| 0 <= i < due@.len() ==> #[trigger] due@[i].step_end_timestamp < now,
            forall|i: int|
                0 <= i < final(self)@.len() ==> #[trigger] final(self)@[i].step_end_timestamp
                    >= now,
            ends_sorted(due@),
            ends_sorted(final(self)@),
    {
        proof {
            use_type_invariant(&*self);
        }
        let n = self.moves.len();
        let mut k: usize = 0;
        while k < n && self.moves[k].step_end_timestamp < now
            invariant
                n == self.moves.len(),
                k <= n,
                forall|i: int| 0 <= i < k ==> self.moves@[i].step_end_timestamp < now,
            decreases n - k,
        {
            k += 1;
        }
        let ghost before = self.moves@;
        let mut rest: Vec<PlayerMove> = Vec::new();
        let mut j: usize = k;
        while j < n
            invariant
                before == self.moves@,
                n == self.moves.len(),
                k <= j <= n,
                rest@ == before.subrange(k as int, j as int),
            decreases n - j,
        {
            rest.push(self.moves[j]);
            assert(before.subrange(k as int, j + 1) =~= before.subrange(k as int, j as int).push(
                before[j as int],
            ));
            j += 1;
        }
        let mut due: Vec<PlayerMove> = Vec::new();
        let mut t: usize = 0;
        while t < k
            invariant
                before == self.moves@,
                n == self.moves.len(),
                k <= n,
                t <= k,
                due@ == before.take(t as int),
            decreases k - t,
        {
            due.push(self.moves[t]);
            assert(before.take(t + 1) =~= before.take(t as int).push(before[t as int]));
            t += 1;
        }
        proof {
            assert(due@ + rest@ =~= before);
            if k < n {
                assert(before[k as int].step_end_timestamp >= now);
            }
            assert forall|i: int| 0 <= i < rest@.len() implies #[trigger] rest@[i].step_end_timestamp
                >= now by {
                assert(rest@[i] == before[k + i]);
                assert(before[k as int].step_end_timestamp <= before[k + i].step_end_timestamp);
            }
        }
        self.moves = rest;
        due
    }
}

proof fn lemma_filter_count(s: Seq<PlayerMove>, p: spec_fn(PlayerMove) -> bool, x: PlayerMove)
    ensures
        s.filter(p).to_multiset().count(x) == if p(x) {
            s.to_multiset().count(x)
        } else {
            0
        },
    decreases s.len(),
{
    if s.len() == 0 {
        assert(s.filter(p) =~= Seq::<PlayerMove>::empty());
    } else {
        let t = s.drop_last();
        let y = s.last();
        assert(t.push(y) =~= s);
        lemma_filter_count(t, p, x);
        t.lemma_filter_push(y, p);
        vstd::seq_lib::to_multiset_build(t, y);
        if p(y) {
            vstd::seq_lib::to_multiset_build(t.filter(p), y);
        }
    }
}

/// A move that was added and then withdrawn for its player is gone, and the
/// list holds exactly the other players' moves that it held before the move
/// was added.
pub proof fn law_remove_after_push(
    before: Seq<PlayerMove>,
    pushed: Seq<PlayerMove>,
    after: Seq<PlayerMove>,
    m: PlayerMove,
)
    requires
        pushed.to_multiset() == before.to_multiset().insert(m),
        after == pushed.filter(keep_others(m.player_id, m.universe_id)),
    ensures
        !after.contains(m),
        after.to_multiset() == before.filter(keep_others(m.player_id, m.universe_id)).to_multiset(),
{
    let p = keep_others(m.player_id, m.universe_id);
    lemma_filter_count(pushed, p, m);
    assert(after.to_multiset().count(m) == 0);
    assert forall|x: PlayerMove| after.to_multiset().count(x) == before.filter(p).to_multiset().count(
        x,
    ) by {
        lemma_filter_count(pushed, p, x);
        lemma_filter_count(before, p, x);
    }
    assert(after.to_multiset() =~= before.filter(p).to_multiset());
}

/// Successive takes hand moves out in order of end: the move taken next never
/// ends before the move taken now.
pub proof fn law_pops_in_end_order(s: Seq<PlayerMove>)
    requires
        ends_sorted(s),
        s.len() >= 2,
    ensures
        s[0].step_end_timestamp <= s.drop_first()[0].step_end_timestamp,
        ends_sorted(s.drop_first()),
{
}

} // verus!
