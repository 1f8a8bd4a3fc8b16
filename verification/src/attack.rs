use vstd::prelude::*;

use std::collections::HashSet;

use crate::fighter::{Anim, Command, Fighter2D, FighterState, Resume};

verus! {

broadcast use vstd::std_specs::hash::group_hash_axioms;

/// Whether a body that enters a hitbox whose attack has hit `targets` is hit.
pub open spec fn spec_lands_in(
    targets: Set<i64>,
    multi: bool,
    body: i64,
    is_source: bool,
    vulnerable: Option<bool>,
) -> bool {
    !is_source && vulnerable == Some(true) && (multi || !targets.contains(body))
}

/// A body entering a hitbox: its id, whether it is the attack's source, and whether it can
/// be attacked and is vulnerable (as `on_body_entered` takes them).
pub type Entry = (i64, bool, Option<bool>);

/// The targets of a single-hit attack that started with `t0`, after the first `n` of
/// `entries` have been handed to `on_body_entered` in turn.
pub open spec fn spec_targets_after(t0: Set<i64>, entries: Seq<Entry>, n: nat) -> Set<i64>
    decreases n,
{
    if n == 0 {
        t0
    } else {
        let t = spec_targets_after(t0, entries, (n - 1) as nat);
        let e = entries[n - 1];
        if spec_lands_in(t, false, e.0, e.1, e.2) {
            t.insert(e.0)
        } else {
            t
        }
    }
}

/// Whether entry `k` of `entries` hits, for a single-hit attack that started with `t0`.
pub open spec fn spec_lands_at(t0: Set<i64>, entries: Seq<Entry>, k: int) -> bool {
    let e = entries[k];
    spec_lands_in(spec_targets_after(t0, entries, k as nat), false, e.0, e.1, e.2)
}

/// The numbers of an attack hitbox and the bodies it has already hit.
pub struct Attack2D {
    pub damage: u32,
    /// The number of frames for which targets hit by this attack will be put into hitstun.
    pub hitstun_frames: u32,
    /// The number of iframes this attack will cause on hit.
    pub invincibility_frames: u32,
    pub allow_multi_hits: bool,
    pub hit_targets: HashSet<i64>,
}

impl Attack2D {
    /// The ids of the bodies this attack has hit since it was last cleared.
    pub open spec fn targets(&self) -> Set<i64> {
        self.hit_targets@
    }

    /// An attack as the scene creates it: one frame of hitstun, no iframes, one hit per body.
    pub fn new() -> (r: Self)
        ensures
            r.damage == 0,
            r.hitstun_frames == 1,
            r.invincibility_frames == 0,
            !r.allow_multi_hits,
            r.targets() == Set::<i64>::empty(),
    {
        Attack2D {
            damage: 0,
            hitstun_frames: 1,
            invincibility_frames: 0,
            allow_multi_hits: false,
            hit_targets: HashSet::new(),
        }
    }

    /// Records that the body with id `id` has been hit.
    pub fn accept_hit(&mut self, id: i64)
        ensures
            final(self).targets() == old(self).targets().insert(id),
            final(self).damage == old(self).damage,
            final(self).hitstun_frames == old(self).hitstun_frames,
            final(self).invincibility_frames == old(self).invincibility_frames,
            final(self).allow_multi_hits == old(self).allow_multi_hits,
    {
        self.hit_targets.insert(id);
    }

    /// Forgets every body hit so far, so that each can be hit again.
    pub fn clear_hit_targets(&mut self)
        ensures
            final(self).targets() == Set::<i64>::empty(),
            final(self).damage == old(self).damage,
            final(self).hitstun_frames == old(self).hitstun_frames,
            final(self).invincibility_frames == old(self).invincibility_frames,
            final(self).allow_multi_hits == old(self).allow_multi_hits,
    {
        self.hit_targets.clear();
    }

    /// Whether a body that enters the hitbox is hit: never the attack's own source, only a
    /// body that can be attacked and is vulnerable, and (unless multiple hits are allowed)
    /// only a body not hit yet.
    pub open spec fn spec_lands(
        &self,
        body: i64,
        is_source: bool,
        vulnerable: Option<bool>,
    ) -> bool {
        spec_lands_in(self.targets(), self.allow_multi_hits, body, is_source, vulnerable)
    }

    /// A body with id `body` entered the hitbox; `is_source` tells whether it is the body that
    /// attacks, and `vulnerable` whether it can be attacked (`None`: it cannot be attacked at
    /// all; else whether it is vulnerable now). Returns whether the attack lands; a landing
    /// single-hit attack remembers the body.
    pub fn on_body_entered(&mut self, body: i64, is_source: bool, vulnerable: Option<bool>) -> (r:
        bool)
        ensures
            r == old(self).spec_lands(body, is_source, vulnerable),
            final(self).targets() == if r && !old(self).allow_multi_hits {
                old(self).targets().insert(body)
            } else {
                old(self).targets()
            },
            final(self).damage == old(self).damage,
            final(self).hitstun_frames == old(self).hitstun_frames,
            final(self).invincibility_frames == old(self).invincibility_frames,
            final(self).allow_multi_hits == old(self).allow_multi_hits,
    {
        if is_source {
            return false;
        }
        match vulnerable {
            None => false,
            Some(false) => false,
            Some(true) => {
                if !self.allow_multi_hits {
                    if self.hit_targets.contains(&body) {
                        return false;
                    }
                    self.hit_targets.insert(body);
                }
                true
            },
        }
    }
}

/// Once a single-hit attack has landed on a body, that body is not hit again until the
/// attack's targets are cleared.
pub proof fn lemma_single_hit_per_body(a: Attack2D, b: Attack2D, body: i64, vulnerable: Option<bool>)
    requires
        !a.allow_multi_hits,
        a.spec_lands(body, false, Some(true)),
        b.allow_multi_hits == a.allow_multi_hits,
        b.targets() == a.targets().insert(body),
    ensures
        !b.spec_lands(body, false, vulnerable),
{
}

/// What decides a hit, for every attack, single- or multi-hit: the attack's own source is
/// never hit; a body that cannot be attacked or is not vulnerable is never hit; a multi-hit
/// attack hits every other vulnerable body, whatever it hit before, and remembers nothing;
/// a single-hit attack hits a vulnerable body exactly when it has not hit it yet.
pub proof fn lemma_who_is_hit(a: Attack2D, body: i64, is_source: bool, vulnerable: Option<bool>)
    ensures
        is_source ==> !a.spec_lands(body, is_source, vulnerable),
        vulnerable != Some(true) ==> !a.spec_lands(body, is_source, vulnerable),
        a.allow_multi_hits && !is_source && vulnerable == Some(true) ==> a.spec_lands(
            body,
            is_source,
            vulnerable,
        ),
        !a.allow_multi_hits && !is_source && vulnerable == Some(true) ==> (a.spec_lands(
            body,
            is_source,
            vulnerable,
        ) <==> !a.targets().contains(body)),
{
}

/// Handing a single-hit attack whose targets are those after `k` entries the entry `k`:
/// it lands exactly as `spec_lands_at` says and leaves the targets after `k + 1` entries.
pub proof fn lemma_entry_step(a: Attack2D, b: Attack2D, t0: Set<i64>, entries: Seq<Entry>, k: int)
    requires
        !a.allow_multi_hits,
        0 <= k < entries.len(),
        a.targets() == spec_targets_after(t0, entries, k as nat),
        b.targets() == if a.spec_lands(entries[k].0, entries[k].1, entries[k].2) {
            a.targets().insert(entries[k].0)
        } else {
            a.targets()
        },
    ensures
        a.spec_lands(entries[k].0, entries[k].1, entries[k].2) == spec_lands_at(t0, entries, k),
        b.targets() == spec_targets_after(t0, entries, (k + 1) as nat),
{
}

/// The targets only grow, and hold every body that an earlier entry hit.
proof fn lemma_targets_grow(t0: Set<i64>, entries: Seq<Entry>, m: nat, n: nat)
    requires
        m <= n <= entries.len(),
    ensures
        spec_targets_after(t0, entries, m).subset_of(spec_targets_after(t0, entries, n)),
        m < n && spec_lands_at(t0, entries, m as int) ==> spec_targets_after(t0, entries, n).contains(
            entries[m as int].0,
        ),
    decreases n,
{
    if m < n {
        lemma_targets_grow(t0, entries, m, (n - 1) as nat);
    }
}

/// Over a whole sequence of bodies entering a single-hit attack, with no clearing in
/// between, each body is hit at most once.
pub proof fn lemma_each_body_hit_at_most_once(t0: Set<i64>, entries: Seq<Entry>, j: int, k: int)
    requires
        0 <= j < entries.len(),
        0 <= k < entries.len(),
        j != k,
        entries[j].0 == entries[k].0,
    ensures
        !(spec_lands_at(t0, entries, j) && spec_lands_at(t0, entries, k)),
{
    if j < k {
        lemma_targets_grow(t0, entries, j as nat, k as nat);
    } else {
        lemma_targets_grow(t0, entries, k as nat, j as nat);
    }
}

/// Over a whole sequence of bodies entering a single-hit attack, with no clearing in
/// between, a body that the attack had hit before the sequence started (such as one recorded
/// by `accept_hit`) is never hit.
pub proof fn lemma_earlier_targets_never_hit(t0: Set<i64>, entries: Seq<Entry>, k: int)
    requires
        0 <= k < entries.len(),
        t0.contains(entries[k].0),
    ensures
        !spec_lands_at(t0, entries, k),
{
    lemma_targets_grow(t0, entries, 0, k as nat);
}

impl Fighter2D {
    /// The fighter is hit by `attack`: it becomes invincible for the attack's iframes and is
    /// put into hitstun for the attack's hitstun frames, flung by its knockback.
    pub fn hit(&mut self, attack: &Attack2D) -> (r: Vec<Command>)
        requires
            old(self).wf(),
            old(self).resume == Resume::Idle,
        ensures
            final(self).wf(),
            *final(self) == (Fighter2D {
                iframes_remaining: attack.invincibility_frames,
                ..old(self).spec_enter_hitstun(attack.hitstun_frames).0
            }),
            r@ == old(self).spec_enter_hitstun(attack.hitstun_frames).1,
    {
        let mut cmds: Vec<Command> = Vec::new();
        self.iframes_remaining = attack.invincibility_frames;
        self.enter_hitstun(attack.hitstun_frames, &mut cmds);
        cmds
    }
}

/// After a hit the fighter is in hitstun for exactly the attack's hitstun frames, and it is
/// vulnerable again only when the attack grants no invincibility frames.
pub proof fn lemma_hit_sets_hitstun_and_iframes(f: Fighter2D, g: Fighter2D, attack: Attack2D)
    requires
        g == (Fighter2D {
            iframes_remaining: attack.invincibility_frames,
            ..f.spec_enter_hitstun(attack.hitstun_frames).0
        }),
    ensures
        g.state == FighterState::HitStun,
        g.hitstun_frames_remaining == attack.hitstun_frames,
        (g.iframes_remaining == 0) <==> attack.invincibility_frames == 0,
        g.jumps_remaining == f.jumps_remaining,
        g.airdashes_remaining == f.airdashes_remaining,
        g.facing == f.facing,
        g.resume == f.resume,
        f.spec_enter_hitstun(attack.hitstun_frames).1 == seq![
            Command::Knockback,
            Command::PlayAnim(Anim::Hitstun),
        ],
{
}

} // verus!
