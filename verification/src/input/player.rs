use vstd::prelude::*;

use std::collections::VecDeque;

use crate::fighter::{FacingDirection, Fighter2D};
use crate::input::{Action, AxisDir, FighterController, MovementFrame};

verus! {

pub const AVATAR_UP: &'static str = "avatar_move_up";

pub const AVATAR_DOWN: &'static str = "avatar_move_down";

pub const AVATAR_LEFT: &'static str = "avatar_move_left";

pub const AVATAR_RIGHT: &'static str = "avatar_move_right";

pub const AVATAR_JUMP: &'static str = "avatar_jump";

pub const AVATAR_DASH: &'static str = "avatar_dash";

pub const AVATAR_LIGHT: &'static str = "avatar_attack_light";

pub const AVATAR_HEAVY: &'static str = "avatar_attack_heavy";

/// The sequence after pushing `item` at the front of `s` and, if that makes it longer than
/// `limit`, dropping its last element.
pub open spec fn spec_push_front_bounded<T>(s: Seq<T>, item: T, limit: usize) -> Seq<T> {
    let t = seq![item] + s;
    if t.len() > limit {
        t.drop_last()
    } else {
        t
    }
}

/// Pushes `item` at the front of `buf`; if the buffer then holds more than `limit`
/// elements, its oldest (last) one is dropped.
pub fn push_front_bounded<T>(buf: &mut VecDeque<T>, item: T, limit: usize)
    ensures
        final(buf)@ == spec_push_front_bounded(old(buf)@, item, limit),
{
    buf.push_front(item);
    if buf.len() > limit {
        buf.pop_back();
    }
}

/// A buffer that held at most `limit` elements still does after a bounded push, and the
/// pushed element is its newest.
pub proof fn lemma_push_front_bounded_stays_bounded<T>(s: Seq<T>, item: T, limit: usize)
    requires
        s.len() <= limit,
        limit >= 1,
    ensures
        spec_push_front_bounded(s, item, limit).len() <= limit,
        spec_push_front_bounded(s, item, limit).len() == if s.len() < limit {
            s.len() + 1int
        } else {
            limit as int
        },
        spec_push_front_bounded(s, item, limit)[0] == item,
        forall|i: int|
            1 <= i < spec_push_front_bounded(s, item, limit).len() ==> spec_push_front_bounded(
                s,
                item,
                limit,
            )[i] == s[i - 1],
{
}

/// An action that was pressed and waits to be used, with the number of frames it has waited.
#[derive(Debug, Clone, Copy, PartialEq, Eq, Structural)]
pub struct QueuedAction {
    pub kind: Action,
    pub age: u32,
}

impl QueuedAction {
    /// The name of the input action that requests `kind`.
    pub open spec fn spec_input_name(kind: Action) -> Seq<char> {
        match kind {
            Action::AttackLight => AVATAR_LIGHT@,
            Action::AttackHeavy => AVATAR_HEAVY@,
            Action::Dash => AVATAR_DASH@,
            Action::Jump => AVATAR_JUMP@,
        }
    }

    /// The name of the input action that requests `kind`.
    pub fn input_name(kind: Action) -> (r: &'static str)
        ensures
            r@ == Self::spec_input_name(kind),
    {
        match kind {
            Action::AttackLight => AVATAR_LIGHT,
            Action::AttackHeavy => AVATAR_HEAVY,
            Action::Dash => AVATAR_DASH,
            Action::Jump => AVATAR_JUMP,
        }
    }

    /// A fresh queued action of `kind` if its input was just pressed.
    pub fn capture(kind: Action, just_pressed: bool) -> (r: Option<Self>)
        ensures
            r == if just_pressed {
                Some(QueuedAction { kind, age: 0 })
            } else {
                None
            },
    {
        if just_pressed {
            Some(Self { kind, age: 0 })
        } else {
            None
        }
    }
}

/// A controller driven by a player's inputs: it keeps a short history of stick directions
/// and buffers the last pressed action for a few frames.
pub struct FighterControllerPlayer {
    /// How many frames of stick history are kept.
    pub movement_buffer_len: u32,
    pub attack_light_buffer_len: u32,
    pub attack_heavy_buffer_len: u32,
    pub dash_buffer_len: u32,
    pub jump_buffer_len: u32,
    /// How many frames after pressing down a fastfall may follow another direction.
    pub fastfall_window: u32,
    /// Stick directions, newest first.
    pub movement_buffer: VecDeque<MovementFrame>,
    pub maintaining_jump: bool,
    pub action: Option<QueuedAction>,
}

/// The number of history frames a fastfall looks at: the current one plus the window.
pub open spec fn spec_fastfall_span(window: u32) -> int {
    if window == u32::MAX {
        u32::MAX as int
    } else {
        window + 1
    }
}

/// A fastfall is wanted when the current frame points straight down and one of the
/// following frames within the window did not: the stick was just flicked down.
pub open spec fn spec_wants_fastfall(buf: Seq<MovementFrame>, window: u32) -> bool {
    let n = if buf.len() < spec_fastfall_span(window) {
        buf.len() as int
    } else {
        spec_fastfall_span(window)
    };
    &&& n >= 1
    &&& buf[0].spec_is_fastfall()
    &&& exists|i: int| 1 <= i < n && !(#[trigger] buf[i]).spec_is_fastfall()
}

impl FighterControllerPlayer {
    /// The controller's invariant: the history is no longer than its configured length and
    /// a queued action can age one more frame.
    pub open spec fn wf(&self) -> bool {
        &&& self.movement_buffer@.len() <= self.movement_buffer_len
        &&& self.action matches Some(a) ==> a.age < u32::MAX
    }

    /// A controller as the scene creates it, with the default buffer lengths.
    pub fn new() -> (r: Self)
        ensures
            r.wf(),
            r.movement_buffer_len == 12,
            r.attack_light_buffer_len == 12,
            r.attack_heavy_buffer_len == 12,
            r.dash_buffer_len == 6,
            r.jump_buffer_len == 6,
            r.fastfall_window == 1,
            r.movement_buffer@ == Seq::<MovementFrame>::empty(),
            !r.maintaining_jump,
            r.action == None::<QueuedAction>,
    {
        FighterControllerPlayer {
            movement_buffer_len: 12,
            attack_light_buffer_len: 12,
            attack_heavy_buffer_len: 12,
            dash_buffer_len: 6,
            jump_buffer_len: 6,
            fastfall_window: 1,
            movement_buffer: VecDeque::new(),
            maintaining_jump: false,
            action: None,
        }
    }

    /// The horizontal direction of the newest stick frame, neutral without history.
    pub open spec fn spec_current_horizontal(&self) -> AxisDir {
        if self.movement_buffer@.len() == 0 {
            AxisDir::Neutral
        } else {
            self.movement_buffer@[0].horizontal
        }
    }

    /// The horizontal direction of the newest stick frame.
    pub fn current_horizontal(&self) -> (r: AxisDir)
        ensures
            r == self.spec_current_horizontal(),
    {
        if self.movement_buffer.len() == 0 {
            AxisDir::Neutral
        } else {
            self.movement_buffer[0].horizontal
        }
    }

    /// The queued action's kind, if one is queued.
    pub open spec fn spec_peek_action(&self) -> Option<Action> {
        match self.action {
            Some(a) => Some(a.kind),
            None => None,
        }
    }

    /// The queued action, left in the queue.
    pub fn peek_action(&self) -> (r: Option<Action>)
        ensures
            r == self.spec_peek_action(),
    {
        match &self.action {
            Some(a) => Some(a.kind),
            None => None,
        }
    }

    /// The queued action, taken out of the queue.
    pub fn consume_action(&mut self) -> (r: Option<Action>)
        ensures
            r == old(self).spec_peek_action(),
            *final(self) == (FighterControllerPlayer { action: None, ..*old(self) }),
    {
        match self.action.take() {
            Some(a) => Some(a.kind),
            None => None,
        }
    }

    /// Whether the stick was just flicked straight down.
    pub fn wants_fastfall(&self) -> (r: bool)
        ensures
            r == spec_wants_fastfall(self.movement_buffer@, self.fastfall_window),
    {
        let span: usize = if self.fastfall_window == u32::MAX {
            u32::MAX as usize
        } else {
            (self.fastfall_window + 1) as usize
        };
        let len = self.movement_buffer.len();
        let n = if len < span {
            len
        } else {
            span
        };
        if n == 0 {
            return false;
        }
        if !self.movement_buffer[0].is_fastfall() {
            return false;
        }
        let mut i: usize = 1;
        while i < n
            invariant
                1 <= i <= n,
                n <= self.movement_buffer@.len(),
                n as int == (if self.movement_buffer@.len() < spec_fastfall_span(
                    self.fastfall_window,
                ) {
                    self.movement_buffer@.len() as int
                } else {
                    spec_fastfall_span(self.fastfall_window)
                }),
                self.movement_buffer@[0].spec_is_fastfall(),
                forall|j: int| 1 <= j < i ==> (#[trigger] self.movement_buffer@[j]).spec_is_fastfall(),
            decreases n - i,
        {
            if !self.movement_buffer[i].is_fastfall() {
                return true;
            }
            i = i + 1;
        }
        false
    }

    /// Whether the stick still holds the direction of a dash towards `dash_dir`.
    pub open spec fn spec_should_maintain_dash(&self, dash_dir: FacingDirection) -> bool {
        let c = self.spec_current_horizontal();
        (dash_dir == FacingDirection::Right && c == AxisDir::Positive) || (dash_dir
            == FacingDirection::Left && c == AxisDir::Negative)
    }

    /// Whether the stick still holds the direction of a dash towards `dash_dir`.
    pub fn should_maintain_dash(&self, dash_dir: FacingDirection) -> (r: bool)
        ensures
            r == self.spec_should_maintain_dash(dash_dir),
    {
        let c = self.current_horizontal();
        (dash_dir == FacingDirection::Right && c == AxisDir::Positive) || (dash_dir
            == FacingDirection::Left && c == AxisDir::Negative)
    }

    /// The configured length of the stick history.
    pub fn get_movement_buffer_len(&self) -> (r: u32)
        ensures
            r == self.movement_buffer_len,
    {
        self.movement_buffer_len
    }

    /// Sets the length of the stick history, dropping the oldest frames that no longer fit.
    pub fn set_movement_buffer_len(&mut self, len: u32)
        requires
            old(self).wf(),
        ensures
            final(self).wf(),
            final(self).movement_buffer_len == len,
            final(self).movement_buffer@ == if old(self).movement_buffer@.len() <= len {
                old(self).movement_buffer@
            } else {
                old(self).movement_buffer@.subrange(0, len as int)
            },
            final(self).attack_light_buffer_len == old(self).attack_light_buffer_len,
            final(self).attack_heavy_buffer_len == old(self).attack_heavy_buffer_len,
            final(self).dash_buffer_len == old(self).dash_buffer_len,
            final(self).jump_buffer_len == old(self).jump_buffer_len,
            final(self).fastfall_window == old(self).fastfall_window,
            final(self).maintaining_jump == old(self).maintaining_jump,
            final(self).action == old(self).action,
    {
        self.movement_buffer_len = len;
        let new = len as usize;
        let old_len = self.movement_buffer.len();
        if old_len < new {
            self.movement_buffer.reserve(new - old_len);
        } else {
            self.movement_buffer.truncate(new);
        }
    }

    /// How many frames an action of `kind` stays queued.
    pub open spec fn spec_buffer_len(&self, kind: Action) -> u32 {
        match kind {
            Action::AttackLight => self.attack_light_buffer_len,
            Action::AttackHeavy => self.attack_heavy_buffer_len,
            Action::Dash => self.dash_buffer_len,
            Action::Jump => self.jump_buffer_len,
        }
    }

    /// The queued action after one more frame: a frame older, and dropped once it has
    /// waited as long as its kind's buffer length.
    pub open spec fn spec_aged(&self) -> Option<QueuedAction> {
        match self.action {
            Some(a) => if a.age + 1 >= self.spec_buffer_len(a.kind) {
                None
            } else {
                Some(QueuedAction { kind: a.kind, age: (a.age + 1) as u32 })
            },
            None => None,
        }
    }

    /// One frame of input: record the stick (`movement`, `None` when it rests in its
    /// deadzone), age the queued action, queue a newly pressed action (`dominant`) in its
    /// place, and note whether jump is held.
    pub fn physics_process(
        &mut self,
        movement: Option<MovementFrame>,
        dominant: Option<Action>,
        jump_pressed: bool,
    )
        requires
            old(self).wf(),
        ensures
            final(self).wf(),
            final(self).movement_buffer@ == spec_push_front_bounded(
                old(self).movement_buffer@,
                match movement {
                    Some(m) => m,
                    None => MovementFrame::spec_neutral(),
                },
                old(self).movement_buffer_len as usize,
            ),
            final(self).action == match dominant {
                Some(k) => Some(QueuedAction { kind: k, age: 0 }),
                None => old(self).spec_aged(),
            },
            final(self).maintaining_jump == jump_pressed,
            final(self).movement_buffer_len == old(self).movement_buffer_len,
            final(self).attack_light_buffer_len == old(self).attack_light_buffer_len,
            final(self).attack_heavy_buffer_len == old(self).attack_heavy_buffer_len,
            final(self).dash_buffer_len == old(self).dash_buffer_len,
            final(self).jump_buffer_len == old(self).jump_buffer_len,
            final(self).fastfall_window == old(self).fastfall_window,
    {
        let frame = match movement {
            Some(m) => m,
            None => MovementFrame::neutral(),
        };
        push_front_bounded(&mut self.movement_buffer, frame, self.movement_buffer_len as usize);
        let aged = match self.action {
            Some(a) => {
                let age = a.age + 1;
                let limit = match a.kind {
                    Action::AttackLight => self.attack_light_buffer_len,
                    Action::AttackHeavy => self.attack_heavy_buffer_len,
                    Action::Dash => self.dash_buffer_len,
                    Action::Jump => self.jump_buffer_len,
                };
                if age >= limit {
                    None
                } else {
                    Some(QueuedAction { kind: a.kind, age })
                }
            },
            None => None,
        };
        self.action = aged;
        if let Some(k) = dominant {
            self.action = Some(QueuedAction { kind: k, age: 0 });
        }
        self.maintaining_jump = jump_pressed;
    }
}

/// The queued action after `k` frames without a new press.
pub open spec fn spec_aged_times(p: FighterControllerPlayer, k: nat) -> Option<QueuedAction>
    decreases k,
{
    if k == 0 {
        p.action
    } else {
        FighterControllerPlayer { action: spec_aged_times(p, (k - 1) as nat), ..p }.spec_aged()
    }
}

/// A pressed action stays queued for exactly its buffer length in frames: after `k` frames
/// without a new press it is still there, `k` frames old, exactly when `k` is below the
/// buffer length of its kind (or no frame has passed yet).
pub proof fn lemma_action_buffered_for_its_length(p: FighterControllerPlayer, kind: Action, k: nat)
    requires
        p.action == Some(QueuedAction { kind, age: 0 }),
    ensures
        (spec_aged_times(p, k) is Some) <==> (k == 0 || k < p.spec_buffer_len(kind)),
        spec_aged_times(p, k) is Some ==> spec_aged_times(p, k) == Some(
            QueuedAction { kind, age: k as u32 },
        ),
    decreases k,
{
    if k > 0 {
        lemma_action_buffered_for_its_length(p, kind, (k - 1) as nat);
    }
}

/// Each kind of action waits for its own configured number of frames: one frame without a
/// new press keeps a queued action, one frame older, exactly while its new age is below the
/// buffer length of its kind (`attack_light_buffer_len`, `attack_heavy_buffer_len`,
/// `dash_buffer_len` or `jump_buffer_len`), and drops it once the age reaches that length.
pub proof fn lemma_each_kind_waits_its_own_length(p: FighterControllerPlayer, q: QueuedAction)
    requires
        p.action == Some(q),
    ensures
        ({
            let len = match q.kind {
                Action::AttackLight => p.attack_light_buffer_len,
                Action::AttackHeavy => p.attack_heavy_buffer_len,
                Action::Dash => p.dash_buffer_len,
                Action::Jump => p.jump_buffer_len,
            };
            &&& q.age + 1 < len ==> p.spec_aged() == Some(
                QueuedAction { kind: q.kind, age: (q.age + 1) as u32 },
            )
            &&& q.age + 1 >= len ==> p.spec_aged() == None::<QueuedAction>
        }),
{
}

/// A heavy attack press with no new press after it is still queued after `k` frames exactly
/// when `k` is below `attack_heavy_buffer_len`; likewise a light attack with
/// `attack_light_buffer_len`, a dash with `dash_buffer_len` and a jump with
/// `jump_buffer_len` (a press is always there on the frame it was made).
pub proof fn lemma_press_waits_its_kinds_length(p: FighterControllerPlayer, kind: Action, k: nat)
    requires
        p.action == Some(QueuedAction { kind, age: 0 }),
    ensures
        kind == Action::AttackHeavy ==> ((spec_aged_times(p, k) is Some) <==> (k == 0 || k
            < p.attack_heavy_buffer_len)),
        kind == Action::AttackLight ==> ((spec_aged_times(p, k) is Some) <==> (k == 0 || k
            < p.attack_light_buffer_len)),
        kind == Action::Dash ==> ((spec_aged_times(p, k) is Some) <==> (k == 0 || k
            < p.dash_buffer_len)),
        kind == Action::Jump ==> ((spec_aged_times(p, k) is Some) <==> (k == 0 || k
            < p.jump_buffer_len)),
{
    lemma_action_buffered_for_its_length(p, kind, k);
}

/// What a player's controller tells its fighter: the horizontal direction of the newest
/// stick frame (at rest without history), the kind of the queued action, whether jump is
/// held, and that a dash is held while the newest frame points the way the fighter faces;
/// taking the action empties the queue and changes nothing else.
pub proof fn lemma_player_reads_its_inputs(p: FighterControllerPlayer, f: Fighter2D)
    ensures
        ({
            let b = p.movement_buffer@;
            let h = FighterController::spec_horizontal(&p, f);
            &&& b.len() == 0 ==> h == AxisDir::Neutral
            &&& b.len() > 0 ==> h == b[0].horizontal
            &&& FighterController::spec_action(&p, f) == match p.action {
                Some(q) => Some(q.kind),
                None => None::<Action>,
            }
            &&& FighterController::spec_consumed(&p, f) == (FighterControllerPlayer {
                action: None,
                ..p
            })
            &&& FighterController::spec_maintain_jump(&p, f) == p.maintaining_jump
            &&& FighterController::spec_maintain_dash(&p, f) <==> (b.len() > 0 && ((f.facing
                == FacingDirection::Right && b[0].horizontal == AxisDir::Positive) || (f.facing
                == FacingDirection::Left && b[0].horizontal == AxisDir::Negative)))
        }),
{
}

/// A stick frame that points straight down: down, and nothing sideways.
pub open spec fn points_straight_down(m: MovementFrame) -> bool {
    m.vertical == AxisDir::Negative && m.horizontal == AxisDir::Neutral
}

/// A fastfall is wanted exactly when the newest stick frame points straight down and one
/// of the next `fastfall_window` older frames (the stick history permitting) did not: a
/// flick down. So it is never wanted without history, while the stick is not straight down,
/// or with a window of zero.
pub proof fn lemma_fastfall_is_a_flick_down(p: FighterControllerPlayer, f: Fighter2D)
    ensures
        ({
            let b = p.movement_buffer@;
            let w = p.fastfall_window;
            let wants = FighterController::spec_wants_fastfall(&p, f);
            &&& wants <==> (b.len() >= 1 && points_straight_down(b[0]) && exists|i: int|
                1 <= i < b.len() && i <= w && i < u32::MAX && !points_straight_down(
                    #[trigger] b[i],
                ))
            &&& b.len() == 0 ==> !wants
            &&& b.len() >= 1 && !points_straight_down(b[0]) ==> !wants
            &&& w == 0 ==> !wants
            &&& b.len() >= 2 && w >= 1 && points_straight_down(b[0]) && !points_straight_down(
                b[1],
            ) ==> wants
        }),
{
    let b = p.movement_buffer@;
    let w = p.fastfall_window;
    if FighterController::spec_wants_fastfall(&p, f) {
        let n = if b.len() < spec_fastfall_span(w) {
            b.len() as int
        } else {
            spec_fastfall_span(w)
        };
        let i = choose|i: int| 1 <= i < n && !(#[trigger] b[i]).spec_is_fastfall();
        assert(!points_straight_down(b[i]));
    }
    if b.len() >= 2 && w >= 1 && points_straight_down(b[0]) && !points_straight_down(b[1]) {
        assert(!b[1].spec_is_fastfall());
    }
}

/// Once the queued action has been taken, none is offered any more.
pub proof fn lemma_consumed_action_is_gone(p: FighterControllerPlayer, f: Fighter2D)
    ensures
        FighterController::spec_action(&FighterController::spec_consumed(&p, f), f) == None::<Action>,
        FighterController::spec_horizontal(&FighterController::spec_consumed(&p, f), f)
            == FighterController::spec_horizontal(&p, f),
{
}

impl FighterController for FighterControllerPlayer {
    open spec fn spec_horizontal(&self, fighter: Fighter2D) -> AxisDir {
        self.spec_current_horizontal()
    }

    open spec fn spec_action(&self, fighter: Fighter2D) -> Option<Action> {
        self.spec_peek_action()
    }

    open spec fn spec_consumed(&self, fighter: Fighter2D) -> Self {
        FighterControllerPlayer { action: None, ..*self }
    }

    open spec fn spec_maintain_jump(&self, fighter: Fighter2D) -> bool {
        self.maintaining_jump
    }

    open spec fn spec_maintain_dash(&self, fighter: Fighter2D) -> bool {
        self.spec_should_maintain_dash(fighter.facing)
    }

    open spec fn spec_wants_fastfall(&self, fighter: Fighter2D) -> bool {
        spec_wants_fastfall(self.movement_buffer@, self.fastfall_window)
    }

    fn current_horizontal(&self, fighter: &Fighter2D) -> (r: AxisDir) {
        FighterControllerPlayer::current_horizontal(self)
    }

    fn consume_action(&mut self, fighter: &Fighter2D) -> (r: Option<Action>) {
        FighterControllerPlayer::consume_action(self)
    }

    fn peek_action(&self, fighter: &Fighter2D) -> (r: Option<Action>) {
        FighterControllerPlayer::peek_action(self)
    }

    fn should_maintain_jump(&self, fighter: &Fighter2D) -> (r: bool) {
        self.maintaining_jump
    }

    fn should_maintain_dash(&self, fighter: &Fighter2D) -> (r: bool) {
        FighterControllerPlayer::should_maintain_dash(self, fighter.facing)
    }

    fn wants_fastfall(&self, fighter: &Fighter2D) -> (r: bool) {
        FighterControllerPlayer::wants_fastfall(self)
    }
}

} // verus!
