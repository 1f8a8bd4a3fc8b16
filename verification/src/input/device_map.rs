use vstd::prelude::*;

use crate::input::Action;
use crate::text::{lemma_decimal_injective, numbered, spec_decimal};

verus! {

/// The input actions of one player, as the input map names them.
#[derive(Debug, Clone, Copy, PartialEq, Eq, Hash, Structural)]
pub enum InputAction {
    AvatarLeft,
    AvatarRight,
    AvatarUp,
    AvatarDown,
    AttackLight,
    AttackHeavy,
    Dash,
    Jump,
}

/// The order in which a channel registers its actions.
pub open spec fn spec_action_order() -> Seq<InputAction> {
    seq![
        InputAction::AvatarLeft,
        InputAction::AvatarRight,
        InputAction::AvatarUp,
        InputAction::AvatarDown,
        InputAction::Jump,
        InputAction::Dash,
        InputAction::AttackLight,
        InputAction::AttackHeavy,
    ]
}

impl InputAction {
    /// The name of the action in the shared, unnumbered input map.
    pub open spec fn spec_default_name(self) -> Seq<char> {
        match self {
            InputAction::AvatarLeft => "avatar_move_left"@,
            InputAction::AvatarRight => "avatar_move_right"@,
            InputAction::AvatarUp => "avatar_move_up"@,
            InputAction::AvatarDown => "avatar_move_down"@,
            InputAction::AttackLight => "avatar_attack_light"@,
            InputAction::AttackHeavy => "avatar_attack_heavy"@,
            InputAction::Dash => "avatar_dash"@,
            InputAction::Jump => "avatar_jump"@,
        }
    }

    /// The name of the action in the shared, unnumbered input map.
    pub fn get_default_name(self) -> (r: &'static str)
        ensures
            r@ == self.spec_default_name(),
    {
        match self {
            InputAction::AvatarLeft => "avatar_move_left",
            InputAction::AvatarRight => "avatar_move_right",
            InputAction::AvatarUp => "avatar_move_up",
            InputAction::AvatarDown => "avatar_move_down",
            InputAction::AttackLight => "avatar_attack_light",
            InputAction::AttackHeavy => "avatar_attack_heavy",
            InputAction::Dash => "avatar_dash",
            InputAction::Jump => "avatar_jump",
        }
    }

    /// The name of the action on input channel `index`: its default name, an underscore,
    /// and the channel number.
    pub open spec fn spec_channel_name(self, index: usize) -> Seq<char> {
        self.spec_default_name() + "_"@ + spec_decimal(index as nat)
    }

    /// The actions of input channel `index` with their names, in registration order;
    /// every action occurs once.
    pub fn build_map(index: usize) -> (r: Vec<(InputAction, String)>)
        ensures
            r@.len() == 8,
            forall|i: int|
                0 <= i < 8 ==> (#[trigger] r@[i]).0 == spec_action_order()[i] && r@[i].1@
                    == spec_action_order()[i].spec_channel_name(index),
    {
        let order = [
            InputAction::AvatarLeft,
            InputAction::AvatarRight,
            InputAction::AvatarUp,
            InputAction::AvatarDown,
            InputAction::Jump,
            InputAction::Dash,
            InputAction::AttackLight,
            InputAction::AttackHeavy,
        ];
        assert(order@ =~= spec_action_order());
        let mut r: Vec<(InputAction, String)> = Vec::new();
        let mut i: usize = 0;
        while i < 8
            invariant
                0 <= i <= 8,
                order@ == spec_action_order(),
                r@.len() == i,
                forall|j: int|
                    0 <= j < i ==> (#[trigger] r@[j]).0 == spec_action_order()[j] && r@[j].1@
                        == spec_action_order()[j].spec_channel_name(index),
            decreases 8 - i,
        {
            let action = order[i];
            let name = numbered(action.get_default_name(), "_", index);
            r.push((action, name));
            i = i + 1;
        }
        r
    }
}

/// No action is registered twice on a channel.
pub proof fn lemma_action_order_distinct()
    ensures
        spec_action_order().no_duplicates(),
        spec_action_order().len() == 8,
{
}

/// Channel names never coincide: two different actions, or one action on two different
/// channels, are registered under different names, so no two players share an action name.
pub proof fn lemma_channel_names_distinct(a: InputAction, i: usize, b: InputAction, j: usize)
    requires
        a != b || i != j,
    ensures
        a.spec_channel_name(i) != b.spec_channel_name(j),
{
    reveal_strlit("avatar_move_left");
    reveal_strlit("avatar_move_right");
    reveal_strlit("avatar_move_up");
    reveal_strlit("avatar_move_down");
    reveal_strlit("avatar_attack_light");
    reveal_strlit("avatar_attack_heavy");
    reveal_strlit("avatar_dash");
    reveal_strlit("avatar_jump");
    reveal_strlit("_");
    let x = a.spec_channel_name(i);
    let y = b.spec_channel_name(j);
    let da = a.spec_default_name();
    let db = b.spec_default_name();
    if a == b {
        if x == y {
            assert(x.subrange(da.len() + 1int, x.len() as int) =~= spec_decimal(i as nat));
            assert(y.subrange(db.len() + 1int, y.len() as int) =~= spec_decimal(j as nat));
            lemma_decimal_injective(i as nat, j as nat);
        }
    } else {
        // The names part at the eighth character (move, attack, dash, jump), the moves at
        // the thirteenth and the attacks at the fifteenth.
        assert(x[7] == da[7] && y[7] == db[7]);
        if da[7] == db[7] {
            if da[7] == 'm' {
                assert(x[12] == da[12] && y[12] == db[12]);
            } else {
                assert(x[14] == da[14] && y[14] == db[14]);
            }
        }
    }
}

/// The device id that stands for every joypad.
pub const JOYPAD_UNIVERSAL: i32 = -1;

/// The device id the engine gives keyboard events, `InputEvent::DEVICE_ID_KEYBOARD`
/// (16 in the engine's API description).
#[verifier::external_body]
pub fn device_id_keyboard() -> (r: i32)
    ensures
        r == 16,
{
    godot::classes::InputEvent::DEVICE_ID_KEYBOARD
}

/// The device id the engine gives mouse events, `InputEvent::DEVICE_ID_MOUSE`
/// (32 in the engine's API description).
#[verifier::external_body]
pub fn device_id_mouse() -> (r: i32)
    ensures
        r == 32,
{
    godot::classes::InputEvent::DEVICE_ID_MOUSE
}

/// Whether a device id names a joypad: neither the keyboard nor the mouse.
pub open spec fn spec_device_is_joypad(device: i32) -> bool {
    device != 16 && device != 32
}

pub fn device_is_joypad(device: i32) -> (r: bool)
    ensures
        r == spec_device_is_joypad(device),
{
    device != device_id_keyboard() && device != device_id_mouse()
}

/// Whether an input event of device `event` belongs to device `device`: the same device,
/// or an event meant for every joypad when `device` is a joypad.
pub open spec fn spec_device_matches_event(event: i32, device: i32) -> bool {
    event == device || (spec_device_is_joypad(device) && event == JOYPAD_UNIVERSAL)
}

pub fn device_matches_event(event: i32, device: i32) -> (r: bool)
    ensures
        r == spec_device_matches_event(event, device),
{
    event == device || (device_is_joypad(device) && event == JOYPAD_UNIVERSAL)
}

/// Events meant for every joypad never reach the keyboard or the mouse, and every device
/// receives its own events.
pub proof fn lemma_universal_events_reach_only_joypads(device: i32)
    ensures
        spec_device_matches_event(device, device),
        spec_device_matches_event(JOYPAD_UNIVERSAL, device) <==> (device == JOYPAD_UNIVERSAL
            || spec_device_is_joypad(device)),
        !spec_device_matches_event(JOYPAD_UNIVERSAL, 16),
        !spec_device_matches_event(JOYPAD_UNIVERSAL, 32),
{
}

/// The device an input event comes from: key events from the keyboard, mouse events from
/// the mouse, any other event from the device it names.
pub open spec fn spec_event_device(device: i32, is_key: bool, is_mouse: bool) -> i32 {
    if is_key {
        16
    } else if is_mouse {
        32
    } else {
        device
    }
}

pub fn event_device(device: i32, is_key: bool, is_mouse: bool) -> (r: i32)
    ensures
        r == spec_event_device(device, is_key, is_mouse),
{
    if is_key {
        device_id_keyboard()
    } else if is_mouse {
        device_id_mouse()
    } else {
        device
    }
}

/// The action a channel reports this frame, of those whose inputs were just pressed:
/// dash before jump before light attack before heavy attack.
pub open spec fn spec_dominant_action(dash: bool, jump: bool, light: bool, heavy: bool) -> Option<
    Action,
> {
    if dash {
        Some(Action::Dash)
    } else if jump {
        Some(Action::Jump)
    } else if light {
        Some(Action::AttackLight)
    } else if heavy {
        Some(Action::AttackHeavy)
    } else {
        None
    }
}

/// How input events are routed: a key event counts as the keyboard's, a mouse event as the
/// mouse's, any other as its own device's; only devices other than the keyboard and the
/// mouse are joypads; a device takes its own events, and a joypad also those meant for
/// every joypad, but no device takes another device's events.
pub proof fn lemma_event_routing(device: i32, event: i32, is_key: bool, is_mouse: bool)
    ensures
        is_key ==> spec_event_device(device, is_key, is_mouse) == 16,
        !is_key && is_mouse ==> spec_event_device(device, is_key, is_mouse) == 32,
        !is_key && !is_mouse ==> spec_event_device(device, is_key, is_mouse) == device,
        spec_device_is_joypad(device) <==> (device != 16 && device != 32),
        spec_device_matches_event(device, device),
        event != device && event != JOYPAD_UNIVERSAL ==> !spec_device_matches_event(event, device),
        spec_device_matches_event(JOYPAD_UNIVERSAL, device) <==> (device == JOYPAD_UNIVERSAL
            || (device != 16 && device != 32)),
{
}

/// Of the actions pressed in one frame a channel reports one: a dash beats a jump, a jump a
/// light attack, a light attack a heavy attack; a single press is reported as it is, and
/// nothing pressed reports nothing.
pub proof fn lemma_dominant_action_priority(dash: bool, jump: bool, light: bool, heavy: bool)
    ensures
        ({
            let r = spec_dominant_action(dash, jump, light, heavy);
            &&& dash ==> r == Some(Action::Dash)
            &&& !dash && jump ==> r == Some(Action::Jump)
            &&& !dash && !jump && light ==> r == Some(Action::AttackLight)
            &&& !dash && !jump && !light && heavy ==> r == Some(Action::AttackHeavy)
            &&& (r is None <==> !(dash || jump || light || heavy))
            &&& r == Some(Action::Dash) ==> dash
            &&& r == Some(Action::Jump) ==> jump
            &&& r == Some(Action::AttackLight) ==> light
            &&& r == Some(Action::AttackHeavy) ==> heavy
        }),
{
}

/// One player's set of input actions, numbered by the channel's index.
pub struct InputChannel {
    pub index: usize,
    /// Each action with its name on this channel, in registration order.
    pub action_names: Vec<(InputAction, String)>,
}

impl InputChannel {
    /// The channel holds every action once, named for its index.
    pub open spec fn wf(&self) -> bool {
        &&& self.action_names@.len() == 8
        &&& forall|i: int|
            0 <= i < 8 ==> (#[trigger] self.action_names@[i]).0 == spec_action_order()[i]
                && self.action_names@[i].1@ == spec_action_order()[i].spec_channel_name(self.index)
    }

    /// The channel with index `index` and its action names.
    pub fn new(index: usize) -> (r: Self)
        ensures
            r.wf(),
            r.index == index,
    {
        InputChannel { index, action_names: InputAction::build_map(index) }
    }

    /// The name of `action` on this channel.
    pub fn action_name(&self, action: InputAction) -> (r: &String)
        requires
            self.wf(),
        ensures
            r@ == action.spec_channel_name(self.index),
    {
        let mut i: usize = 0;
        while i < 8
            invariant
                self.wf(),
                0 <= i <= 8,
                forall|j: int| 0 <= j < i ==> spec_action_order()[j] != action,
            decreases 8 - i,
        {
            if self.action_names[i].0 == action {
                return &self.action_names[i].1;
            }
            i = i + 1;
        }
        proof {
            let k: int = match action {
                InputAction::AvatarLeft => 0,
                InputAction::AvatarRight => 1,
                InputAction::AvatarUp => 2,
                InputAction::AvatarDown => 3,
                InputAction::Jump => 4,
                InputAction::Dash => 5,
                InputAction::AttackLight => 6,
                InputAction::AttackHeavy => 7,
            };
            assert(spec_action_order()[k] == action);
        }
        &self.action_names[0].1
    }

    /// The action the channel reports, given which of its action inputs were just pressed.
    pub fn get_dominant_action(&self, dash: bool, jump: bool, light: bool, heavy: bool) -> (r:
        Option<Action>)
        ensures
            r == spec_dominant_action(dash, jump, light, heavy),
    {
        if dash {
            Some(Action::Dash)
        } else if jump {
            Some(Action::Jump)
        } else if light {
            Some(Action::AttackLight)
        } else if heavy {
            Some(Action::AttackHeavy)
        } else {
            None
        }
    }
}

/// The devices a player's input channel takes when the game was started from its scene:
/// channel 0 the first joypad, channel 1 the second joypad with keyboard and mouse, later
/// channels none.
pub open spec fn spec_channel_devices(index: usize) -> Seq<i32> {
    if index == 0 {
        seq![0i32]
    } else if index == 1 {
        seq![1i32, 16i32, 32i32]
    } else {
        Seq::empty()
    }
}

pub fn channel_devices(index: usize) -> (r: Vec<i32>)
    ensures
        r@ == spec_channel_devices(index),
{
    let mut r: Vec<i32> = Vec::new();
    if index == 0 {
        r.push(0);
    } else if index == 1 {
        r.push(1);
        r.push(device_id_keyboard());
        r.push(device_id_mouse());
    }
    r
}

/// The first channel takes the first joypad, the second the second joypad with the
/// keyboard and the mouse, later channels nothing; no device goes to two channels.
pub proof fn lemma_channel_devices_are_disjoint(i: usize, j: usize, d: i32)
    ensures
        spec_channel_devices(0) == seq![0i32],
        spec_channel_devices(1) == seq![1i32, 16i32, 32i32],
        i >= 2 ==> spec_channel_devices(i).len() == 0,
        i != j && spec_channel_devices(i).contains(d) ==> !spec_channel_devices(j).contains(d),
{
    if i != j && spec_channel_devices(i).contains(d) && spec_channel_devices(j).contains(d) {
        let a = choose|k: int| 0 <= k < spec_channel_devices(i).len() && spec_channel_devices(i)[k] == d;
        let b = choose|k: int| 0 <= k < spec_channel_devices(j).len() && spec_channel_devices(j)[k] == d;
        assert(spec_channel_devices(i)[a] == spec_channel_devices(j)[b]);
    }
}

/// The number of entries that are set.
pub open spec fn spec_count_set(flags: Seq<bool>) -> nat
    decreases flags.len(),
{
    if flags.len() == 0 {
        0
    } else {
        spec_count_set(flags.drop_last()) + if flags.last() {
            1nat
        } else {
            0nat
        }
    }
}

/// The index of a new player's input channel: the number of other player controllers that
/// already have a channel (`claimed` holds one flag per other controller).
pub fn next_channel_index(claimed: &Vec<bool>) -> (r: usize)
    ensures
        r == spec_count_set(claimed@),
{
    let mut count: usize = 0;
    let mut i: usize = 0;
    while i < claimed.len()
        invariant
            0 <= i <= claimed@.len(),
            count == spec_count_set(claimed@.subrange(0, i as int)),
            count <= i,
        decreases claimed@.len() - i,
    {
        assert(claimed@.subrange(0, i + 1).drop_last() =~= claimed@.subrange(0, i as int));
        if claimed[i] {
            count = count + 1;
        }
        i = i + 1;
    }
    assert(claimed@.subrange(0, claimed@.len() as int) =~= claimed@);
    count
}

/// Counting claimed channels: none claimed counts zero, each claimed flag added counts one
/// more and each unclaimed one nothing, so the count never exceeds the controllers and
/// equals them when all are claimed.
pub proof fn lemma_count_set_counts(flags: Seq<bool>, b: bool)
    ensures
        spec_count_set(Seq::<bool>::empty()) == 0,
        spec_count_set(flags.push(b)) == spec_count_set(flags) + if b {
            1nat
        } else {
            0nat
        },
        spec_count_set(flags) <= flags.len(),
        (forall|i: int| 0 <= i < flags.len() ==> #[trigger] flags[i]) ==> spec_count_set(flags)
            == flags.len(),
        (forall|i: int| 0 <= i < flags.len() ==> !#[trigger] flags[i]) ==> spec_count_set(flags)
            == 0,
    decreases flags.len(),
{
    assert(flags.push(b).drop_last() =~= flags);
    if flags.len() > 0 {
        lemma_count_set_counts(flags.drop_last(), flags.last());
        if forall|i: int| 0 <= i < flags.len() ==> #[trigger] flags[i] {
            assert forall|i: int| 0 <= i < flags.drop_last().len() implies #[trigger] flags.drop_last()[i] by {
                assert(flags[i]);
            }
        }
        if forall|i: int| 0 <= i < flags.len() ==> !#[trigger] flags[i] {
            assert forall|i: int| 0 <= i < flags.drop_last().len() implies !#[trigger] flags.drop_last()[i] by {
                assert(!flags[i]);
            }
        }
    }
}

/// A controller that must run its physics before everything else takes a negative
/// priority: a non-negative priority becomes -1, a negative one is kept.
pub fn early_physics_priority(priority: i32) -> (r: i32)
    ensures
        r < 0,
        priority < 0 ==> r == priority,
        r == if priority >= 0 {
            -1i32
        } else {
            priority
        },
{
    if priority >= 0 {
        -1
    } else {
        priority
    }
}

} // verus!
