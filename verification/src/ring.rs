//! Monitor ring: an ordering of the live monitors by physical x position,
//! with wraparound neighbours in either direction.
//!
//! The ring is rebuilt from a fresh monitor snapshot before every use;
//! nothing here caches compositor state.

use vstd::prelude::*;

use crate::codec::valid_ordinal;
use crate::Error;

verus! {

broadcast use {vstd::seq_lib::group_to_multiset_ensures, vstd::multiset::group_multiset_axioms};

/// A monitor as the compositor reports it: a session-stable id, a stable
/// hardware name, and the pixel offset on the x axis that orders it.
#[derive(Debug)]
pub struct Monitor {
    pub id: i64,
    pub name: String,
    pub x: i64,
}

/// The mathematical image of a [`Monitor`].
pub struct MonitorV {
    pub id: int,
    pub name: Seq<char>,
    pub x: int,
}

impl View for Monitor {
    type V = MonitorV;

    open spec fn view(&self) -> MonitorV {
        MonitorV { id: self.id as int, name: self.name@, x: self.x as int }
    }
}

impl Clone for Monitor {
    fn clone(&self) -> (r: Self)
        ensures
            r@ == self@,
    {
        Monitor { id: self.id, name: self.name.clone(), x: self.x }
    }
}

/// A cycling direction along the ring.
#[derive(Clone, Copy, Debug, PartialEq, Eq, Structural)]
pub enum Direction {
    Left,
    Right,
}

/// The images of a sequence of monitors.
pub open spec fn views(s: Seq<Monitor>) -> Seq<MonitorV> {
    s.map_values(|m: Monitor| m@)
}

/// Ascending by x position.
pub open spec fn sorted_by_x(s: Seq<MonitorV>) -> bool {
    forall|i: int, j: int| 0 <= i < j < s.len() ==> s[i].x <= s[j].x
}

/// No two monitors share an id.
pub open spec fn unique_ids(s: Seq<MonitorV>) -> bool {
    forall|i: int, j: int| 0 <= i < j < s.len() ==> s[i].id != s[j].id
}

/// The index of the first monitor satisfying `p`, or -1 when none does.
pub open spec fn find_by(s: Seq<MonitorV>, p: spec_fn(MonitorV) -> bool) -> int
    decreases s.len(),
{
    if s.len() == 0 {
        -1
    } else if p(s[0]) {
        0
    } else {
        let r = find_by(s.drop_first(), p);
        if r < 0 {
            -1
        } else {
            r + 1
        }
    }
}

/// The index of the first monitor with the given id, or -1 when absent.
pub open spec fn find_index(s: Seq<MonitorV>, id: int) -> int {
    find_by(s, |m: MonitorV| m.id == id)
}

/// The index of the first monitor with the given name, or -1 when absent.
pub open spec fn find_index_by_name(s: Seq<MonitorV>, name: Seq<char>) -> int {
    find_by(s, |m: MonitorV| m.name == name)
}

/// The neighbouring index in a ring of `n` positions, wrapping at the ends.
pub open spec fn step_index(i: int, n: int, direction: Direction) -> int {
    match direction {
        Direction::Right => if i + 1 < n {
            i + 1
        } else {
            0
        },
        Direction::Left => if i > 0 {
            i - 1
        } else {
            n - 1
        },
    }
}

/// The monitor one step along the ring from the monitor with id `id`,
/// or nothing when no monitor carries that id.
pub open spec fn next_spec(s: Seq<MonitorV>, id: int, direction: Direction) -> Option<MonitorV> {
    let i = find_index(s, id);
    if i < 0 {
        Option::None
    } else {
        Option::Some(s[step_index(i, s.len() as int, direction)])
    }
}

/// `find_by` returns the first index satisfying `p`.
pub proof fn lemma_find_by_first(s: Seq<MonitorV>, p: spec_fn(MonitorV) -> bool, i: int)
    requires
        0 <= i < s.len(),
        p(s[i]),
        forall|t: int| 0 <= t < i ==> !p(#[trigger] s[t]),
    ensures
        find_by(s, p) == i,
    decreases s.len(),
{
    if i > 0 {
        assert(forall|t: int| 0 <= t < i - 1 ==> !p(#[trigger] s.drop_first()[t]));
        lemma_find_by_first(s.drop_first(), p, i - 1);
    }
}

/// When no monitor satisfies `p`, `find_by` reports absence.
pub proof fn lemma_find_by_none(s: Seq<MonitorV>, p: spec_fn(MonitorV) -> bool)
    requires
        forall|t: int| 0 <= t < s.len() ==> !p(#[trigger] s[t]),
    ensures
        find_by(s, p) == -1,
    decreases s.len(),
{
    if s.len() > 0 {
        lemma_find_by_none(s.drop_first(), p);
    }
}

/// A found index satisfies `p` and is the first to do so.
pub proof fn lemma_find_by_found(s: Seq<MonitorV>, p: spec_fn(MonitorV) -> bool)
    requires
        find_by(s, p) >= 0,
    ensures
        find_by(s, p) < s.len(),
        p(s[find_by(s, p)]),
        forall|t: int| 0 <= t < find_by(s, p) ==> !p(#[trigger] s[t]),
    decreases s.len(),
{
    if s.len() > 0 && !p(s[0]) {
        lemma_find_by_found(s.drop_first(), p);
        assert(forall|t: int|
            0 <= t < find_by(s, p) ==> s[t] == s.drop_first()[t - 1] || t == 0);
    }
}

/// The live monitors in ascending x order; neighbours wrap around.
pub struct MonitorRing {
    monitors: Vec<Monitor>,
}

impl View for MonitorRing {
    type V = Seq<MonitorV>;

    closed spec fn view(&self) -> Seq<MonitorV> {
        views(self.monitors@)
    }
}

impl MonitorRing {
    /// A well-formed ring stands in ascending x order.
    pub open spec fn wf(&self) -> bool {
        sorted_by_x(self@)
    }

    /// Builds the ring from a monitor snapshot: the same monitors,
    /// rearranged into ascending x order.
    pub fn new(monitors: Vec<Monitor>) -> (r: MonitorRing)
        ensures
            r.wf(),
            r@.to_multiset() == views(monitors@).to_multiset(),
            r@.len() == monitors@.len(),
    {
        let mut rest = monitors;
        let ghost orig = views(rest@);
        let mut sorted: Vec<Monitor> = Vec::new();
        while rest.len() > 0
            invariant
                sorted_by_x(views(sorted@)),
                forall|i: int, j: int|
                    #![trigger sorted@[i], rest@[j]]
                    0 <= i < sorted@.len() && 0 <= j < rest@.len()
                        ==> sorted@[i]@.x <= rest@[j]@.x,
                views(sorted@).to_multiset().add(views(rest@).to_multiset())
                    == orig.to_multiset(),
                sorted@.len() + rest@.len() == orig.len(),
            decreases rest.len(),
        {
            let mut min_i: usize = 0;
            let mut k: usize = 1;
            while k < rest.len()
                invariant
                    min_i < rest@.len(),
                    k <= rest@.len(),
                    rest@.len() > 0,
                    forall|t: int|
                        0 <= t < k ==> rest@[min_i as int]@.x <= #[trigger] rest@[t]@.x,
                decreases rest.len() - k,
            {
                if rest[k].x < rest[min_i].x {
                    min_i = k;
                }
                k += 1;
            }
            let ghost old_sorted = sorted@;
            let ghost old_rest = rest@;
            let m = rest.remove(min_i);
            sorted.push(m);
            proof {
                assert(views(sorted@) =~= views(old_sorted).push(m@));
                assert(views(rest@) =~= views(old_rest).remove(min_i as int));
                assert(views(old_rest)[min_i as int] == m@);
                assert(views(sorted@).to_multiset().add(views(rest@).to_multiset())
                    =~= orig.to_multiset());
            }
        }
        MonitorRing { monitors: sorted }
    }

    /// The number of monitors in the ring.
    pub fn len(&self) -> (n: usize)
        ensures
            n == self@.len(),
    {
        self.monitors.len()
    }

    /// The monitor at a ring position.
    pub fn monitor_at(&self, i: usize) -> (m: &Monitor)
        requires
            i < self@.len(),
        ensures
            m@ == self@[i as int],
    {
        &self.monitors[i]
    }

    /// The position of the first monitor with the given id.
    pub fn position_of(&self, id: i64) -> (r: Option<usize>)
        ensures
            r matches Some(i) ==> i == find_index(self@, id as int),
            r is None <==> find_index(self@, id as int) == -1,
    {
        let n = self.monitors.len();
        let mut i: usize = 0;
        while i < n
            invariant
                i <= n,
                n == self@.len(),
                forall|t: int| 0 <= t < i ==> self@[t].id != id as int,
            decreases n - i,
        {
            if self.monitors[i].id == id {
                proof {
                    lemma_find_by_first(self@, |m: MonitorV| m.id == id as int, i as int);
                }
                return Some(i);
            }
            i += 1;
        }
        proof {
            lemma_find_by_none(self@, |m: MonitorV| m.id == id as int);
        }
        None
    }

    /// The position of the first monitor with the given name.
    pub fn position_of_name(&self, name: &String) -> (r: Option<usize>)
        ensures
            r matches Some(i) ==> i == find_index_by_name(self@, name@),
            r is None <==> find_index_by_name(self@, name@) == -1,
    {
        let n = self.monitors.len();
        let mut i: usize = 0;
        while i < n
            invariant
                i <= n,
                n == self@.len(),
                forall|t: int| 0 <= t < i ==> (#[trigger] self@[t]).name != name@,
            decreases n - i,
        {
            if self.monitors[i].name == *name {
                proof {
                    lemma_find_by_first(self@, |m: MonitorV| m.name == name@, i as int);
                }
                return Some(i);
            }
            i += 1;
        }
        proof {
            lemma_find_by_none(self@, |m: MonitorV| m.name == name@);
        }
        None
    }

    /// The ring ordinal of the monitor at position `i`: 0 for the sole or
    /// primary monitor (compositor id 0), else the 1-based ring position.
    pub open spec fn ordinal_at(s: Seq<MonitorV>, i: int) -> int {
        if s.len() == 1 || s[i].id == 0 {
            0
        } else {
            i + 1
        }
    }

    /// The ring ordinal of the monitor with the given id. Fails with
    /// `MonitorNotFound` when no such monitor is live, and with
    /// `InvalidWorkspace` when the ring position exceeds the 9 that the
    /// addressing scheme can distinguish.
    pub fn ordinal_of_id(&self, id: i64) -> (r: Result<u8, Error>)
        ensures
            r matches Ok(o) ==> {
                let i = find_index(self@, id as int);
                &&& i >= 0
                &&& o as int == Self::ordinal_at(self@, i)
                &&& valid_ordinal(o as int)
            },
            r is Ok <==> (find_index(self@, id as int) >= 0 && valid_ordinal(
                Self::ordinal_at(self@, find_index(self@, id as int)),
            )),
            r matches Err(e) ==> if find_index(self@, id as int) == -1 {
                e == Error::MonitorNotFound
            } else {
                e == Error::InvalidWorkspace
            },
    {
        match self.position_of(id) {
            Some(i) => {
                proof {
                    lemma_find_by_found(self@, |m: MonitorV| m.id == id as int);
                }
                if self.monitors.len() == 1 || self.monitors[i].id == 0 {
                    Ok(0)
                } else if i >= 9 {
                    Err(Error::InvalidWorkspace)
                } else {
                    Ok((i + 1) as u8)
                }
            },
            None => Err(Error::MonitorNotFound),
        }
    }

    /// The ring ordinal of the monitor with the given name, resolved the
    /// same way as [`MonitorRing::ordinal_of_id`].
    pub fn ordinal_of_name(&self, name: &String) -> (r: Result<u8, Error>)
        ensures
            r matches Ok(o) ==> {
                let i = find_index_by_name(self@, name@);
                &&& i >= 0
                &&& o as int == Self::ordinal_at(self@, i)
                &&& valid_ordinal(o as int)
            },
            r is Ok <==> (find_index_by_name(self@, name@) >= 0 && valid_ordinal(
                Self::ordinal_at(self@, find_index_by_name(self@, name@)),
            )),
            r matches Err(e) ==> if find_index_by_name(self@, name@) == -1 {
                e == Error::MonitorNotFound
            } else {
                e == Error::InvalidWorkspace
            },
    {
        match self.position_of_name(name) {
            Some(i) => {
                proof {
                    lemma_find_by_found(self@, |m: MonitorV| m.name == name@);
                }
                if self.monitors.len() == 1 || self.monitors[i].id == 0 {
                    Ok(0)
                } else if i >= 9 {
                    Err(Error::InvalidWorkspace)
                } else {
                    Ok((i + 1) as u8)
                }
            },
            None => Err(Error::MonitorNotFound),
        }
    }

    /// The neighbour of the monitor with id `current_id`, one step in the
    /// given direction with wraparound; fails exactly when no monitor in
    /// the ring carries that id.
    pub fn next(&self, current_id: i64, direction: Direction) -> (r: Result<Monitor, Error>)
        ensures
            r matches Ok(m) ==> next_spec(self@, current_id as int, direction)
                == Option::Some(m@),
            r is Err <==> find_index(self@, current_id as int) == -1,
            r matches Err(e) ==> e == Error::MonitorNotFound,
    {
        let n = self.monitors.len();
        match self.position_of(current_id) {
            Some(i) => {
                proof {
                    lemma_find_by_found(self@, |m: MonitorV| m.id == current_id as int);
                }
                let j: usize = match direction {
                    Direction::Right => if i + 1 < n {
                        i + 1
                    } else {
                        0
                    },
                    Direction::Left => if i > 0 {
                        i - 1
                    } else {
                        n - 1
                    },
                };
                Ok(self.monitors[j].clone())
            },
            None => Err(Error::MonitorNotFound),
        }
    }
}

/// Moving right and then left returns to the monitor one started from,
/// whatever the ring size.
pub proof fn lemma_right_then_left(s: Seq<MonitorV>, id: int)
    requires
        unique_ids(s),
        find_index(s, id) >= 0,
    ensures
        next_spec(s, id, Direction::Right) is Some,
        next_spec(s, next_spec(s, id, Direction::Right)->Some_0.id, Direction::Left)
            == Option::Some(s[find_index(s, id)]),
{
    lemma_find_by_found(s, |m: MonitorV| m.id == id);
    let i = find_index(s, id);
    let n = s.len() as int;
    let j = step_index(i, n, Direction::Right);
    assert(forall|t: int| 0 <= t < j ==> (#[trigger] s[t]).id != s[j].id);
    lemma_find_by_first(s, |m: MonitorV| m.id == s[j].id, j);
    assert(step_index(j, n, Direction::Left) == i);
}

/// The index reached after `k` single steps to the right.
pub open spec fn step_right_k(i: int, n: int, k: nat) -> int
    decreases k,
{
    if k == 0 {
        i
    } else {
        step_index(step_right_k(i, n, (k - 1) as nat), n, Direction::Right)
    }
}

/// Stepping right `k` times from `i` lands on `(i + k) % n`.
proof fn lemma_step_right_k_mod(i: int, n: int, k: nat)
    requires
        n >= 1,
        0 <= i < n,
    ensures
        step_right_k(i, n, k) == (i + k) % n,
        0 <= step_right_k(i, n, k) < n,
    decreases k,
{
    if k == 0 {
        vstd::arithmetic::div_mod::lemma_small_mod(i as nat, n as nat);
    } else {
        lemma_step_right_k_mod(i, n, (k - 1) as nat);
        let prev = step_right_k(i, n, (k - 1) as nat);
        vstd::arithmetic::div_mod::lemma_fundamental_div_mod(i + k - 1, n);
        let q = (i + k - 1) / n;
        if prev + 1 < n {
            vstd::arithmetic::div_mod::lemma_fundamental_div_mod_converse_mod(
                i + k,
                n,
                q,
                prev + 1,
            );
        } else {
            assert(i + k == (q + 1) * n + 0) by (nonlinear_arith)
                requires
                    i + k - 1 == q * n + prev,
                    prev + 1 == n,
            ;
            vstd::arithmetic::div_mod::lemma_fundamental_div_mod_converse_mod(i + k, n, q + 1, 0);
        }
    }
}

/// A full turn: stepping right as many times as the ring has monitors
/// returns to the starting position.
proof fn lemma_full_cycle(i: int, n: int)
    requires
        n >= 1,
        0 <= i < n,
    ensures
        step_right_k(i, n, n as nat) == i,
{
    lemma_step_right_k_mod(i, n, n as nat);
    assert((i + n) % n == i) by {
        vstd::arithmetic::div_mod::lemma_mod_add_multiples_vanish(i, n);
        vstd::arithmetic::div_mod::lemma_small_mod(i as nat, n as nat);
    }
}

/// With distinct ids, looking a monitor up by its own id finds its index.
proof fn lemma_unique_find(s: Seq<MonitorV>, j: int)
    requires
        unique_ids(s),
        0 <= j < s.len(),
    ensures
        find_index(s, s[j].id) == j,
{
    assert(forall|t: int| 0 <= t < j ==> (#[trigger] s[t]).id != s[j].id);
    lemma_find_by_first(s, |m: MonitorV| m.id == s[j].id, j);
}

/// The monitor reached from the monitor with id `id` after `k` single
/// steps to the right.
pub open spec fn iterate_right(s: Seq<MonitorV>, id: int, k: nat) -> Option<MonitorV>
    decreases k,
{
    if k == 0 {
        if find_index(s, id) < 0 {
            Option::None
        } else {
            Option::Some(s[find_index(s, id)])
        }
    } else {
        match iterate_right(s, id, (k - 1) as nat) {
            Option::None => Option::None,
            Option::Some(m) => next_spec(s, m.id, Direction::Right),
        }
    }
}

/// After `k` right steps one stands `k` ring positions to the right.
proof fn lemma_iterate_right_index(s: Seq<MonitorV>, id: int, k: nat)
    requires
        unique_ids(s),
        find_index(s, id) >= 0,
    ensures
        iterate_right(s, id, k) == Option::Some(
            s[step_right_k(find_index(s, id), s.len() as int, k)],
        ),
    decreases k,
{
    let i = find_index(s, id);
    let n = s.len() as int;
    lemma_find_by_found(s, |m: MonitorV| m.id == id);
    if k > 0 {
        lemma_iterate_right_index(s, id, (k - 1) as nat);
        lemma_step_right_k_mod(i, n, (k - 1) as nat);
        let j = step_right_k(i, n, (k - 1) as nat);
        lemma_unique_find(s, j);
    }
}

/// A full turn: cycling right as many times as the ring has monitors
/// returns to the monitor one started from.
pub proof fn lemma_right_full_cycle(s: Seq<MonitorV>, id: int)
    requires
        unique_ids(s),
        find_index(s, id) >= 0,
    ensures
        iterate_right(s, id, s.len()) == Option::Some(s[find_index(s, id)]),
{
    lemma_find_by_found(s, |m: MonitorV| m.id == id);
    lemma_iterate_right_index(s, id, s.len());
    lemma_full_cycle(find_index(s, id), s.len() as int);
}

/// In a ring of one monitor both directions return that sole monitor:
/// wraparound, not a special case.
pub proof fn lemma_singleton_ring(s: Seq<MonitorV>, id: int, direction: Direction)
    requires
        s.len() == 1,
        find_index(s, id) >= 0,
    ensures
        next_spec(s, id, direction) == Option::Some(s[0]),
{
    lemma_find_by_found(s, |m: MonitorV| m.id == id);
}

} // verus!
