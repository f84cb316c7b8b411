use hook::sdk::user_cmd::{
    CBasePB, CInButtonState, CInButtonStatePB, CUserCmdManager, EButtonStatePBBits, ECommandButtons,
    user_cmd_slot, MULTIPLAYER_BACKUP,
};

const ALL_BUTTONS: [ECommandButtons; 17] = [
    ECommandButtons::IN_ATTACK,
    ECommandButtons::IN_JUMP,
    ECommandButtons::IN_DUCK,
    ECommandButtons::IN_FORWARD,
    ECommandButtons::IN_BACK,
    ECommandButtons::IN_USE,
    ECommandButtons::IN_LEFT,
    ECommandButtons::IN_RIGHT,
    ECommandButtons::IN_MOVELEFT,
    ECommandButtons::IN_MOVERIGHT,
    ECommandButtons::IN_SECOND_ATTACK,
    ECommandButtons::IN_RELOAD,
    ECommandButtons::IN_SPRINT,
    ECommandButtons::IN_JOYAUTOSPRINT,
    ECommandButtons::IN_SHOWSCORES,
    ECommandButtons::IN_ZOOM,
    ECommandButtons::IN_LOOKATWEAPON,
];

#[test]
fn button_masks_match_their_bits() {
    let expected: [u64; 17] = [
        1 << 0,
        1 << 1,
        1 << 2,
        1 << 3,
        1 << 4,
        1 << 5,
        1 << 7,
        1 << 8,
        1 << 9,
        1 << 10,
        1 << 11,
        1 << 13,
        1 << 16,
        1 << 17,
        1 << 33,
        1 << 34,
        1 << 35,
    ];
    for (button, mask) in ALL_BUTTONS.iter().zip(expected.iter()) {
        assert_eq!(button.bits(), *mask);
    }
    assert_eq!(ECommandButtons::IN_SPRINT.bits(), 0x1_0000);
    assert_eq!(ECommandButtons::IN_LOOKATWEAPON.bits(), 0x8_0000_0000);
}

#[test]
fn buttons_are_disjoint_single_bits() {
    for (i, a) in ALL_BUTTONS.iter().enumerate() {
        assert_eq!(a.bits().count_ones(), 1);
        for (j, b) in ALL_BUTTONS.iter().enumerate() {
            if i != j {
                assert_ne!(a, b);
                assert_eq!(a.bits() & b.bits(), 0);
            }
        }
    }
}

#[test]
fn button_state_flags() {
    assert_eq!(EButtonStatePBBits::BUTTON_STATE_PB_BITS_BUTTONSTATE1.bits(), 0x1);
    assert_eq!(EButtonStatePBBits::BUTTON_STATE_PB_BITS_BUTTONSTATE2.bits(), 0x2);
    assert_eq!(EButtonStatePBBits::BUTTON_STATE_PB_BITS_BUTTONSTATE3.bits(), 0x4);
}

#[test]
fn set_bits_ors_into_cached_bits() {
    let mut base = CBasePB { vtable: [7; 8], n_has_bits: 0x3, n_cached_bits: 0b1001 };
    base.set_bits(0b0110);
    assert_eq!(base.n_cached_bits, 0b1111);
    assert_eq!(base.n_has_bits, 0x3);
    assert_eq!(base.vtable, [7; 8]);
}

#[test]
fn set_bits_is_idempotent_and_order_free() {
    let mut a = CBasePB { vtable: [0; 8], n_has_bits: 0, n_cached_bits: 0x10 };
    a.set_bits(0x1);
    a.set_bits(0x1);
    a.set_bits(0x100);
    let mut b = CBasePB { vtable: [0; 8], n_has_bits: 0, n_cached_bits: 0x10 };
    b.set_bits(0x100);
    b.set_bits(0x1);
    assert_eq!(a.n_cached_bits, 0x111);
    assert_eq!(b.n_cached_bits, 0x111);
}

#[test]
fn set_bits_with_zero_keeps_mask() {
    let mut base = CBasePB { vtable: [0; 8], n_has_bits: 1, n_cached_bits: u64::MAX - 1 };
    base.set_bits(0);
    assert_eq!(base.n_cached_bits, u64::MAX - 1);
    base.set_bits(u64::MAX);
    assert_eq!(base.n_cached_bits, u64::MAX);
}

#[test]
fn button_state_message_holds_masks() {
    let mut msg = CInButtonStatePB {
        base: CBasePB { vtable: [0; 8], n_has_bits: 0, n_cached_bits: 0 },
        buttonstate1: ECommandButtons::IN_JUMP.bits(),
        buttonstate2: 0,
        buttonstate3: 0,
    };
    msg.base.set_bits(EButtonStatePBBits::BUTTON_STATE_PB_BITS_BUTTONSTATE1.bits() as u64);
    assert_eq!(msg.base.n_cached_bits, 1);
    assert_eq!(msg.buttonstate1, 2);
    let state = CInButtonState {
        vtable: [0; 8],
        n_value: ECommandButtons::IN_ATTACK.bits() | ECommandButtons::IN_SPRINT.bits(),
        n_value_changed: 0,
        n_value_scroll: 0,
    };
    assert_eq!(state.n_value & ECommandButtons::IN_SPRINT.bits(), ECommandButtons::IN_SPRINT.bits());
    assert_eq!(state.n_value & ECommandButtons::IN_JUMP.bits(), 0);
}

fn manager(seq: i32) -> CUserCmdManager<u32> {
    let mut commands = [0u32; 150];
    for (i, c) in commands.iter_mut().enumerate() {
        *c = i as u32;
    }
    CUserCmdManager { arr_commands: commands, n_sequence_number: seq, n_previous_sequence_number: seq - 1 }
}

#[test]
fn get_user_cmd_picks_slot_of_sequence_number() {
    assert_eq!(MULTIPLAYER_BACKUP, 150);
    let mut m = manager(0);
    assert_eq!(*m.get_user_cmd(), 0);
    let mut m = manager(151);
    assert_eq!(*m.get_user_cmd(), 1);
    let mut m = manager(299);
    assert_eq!(*m.get_user_cmd(), 149);
    let mut m = manager(300);
    assert_eq!(*m.get_user_cmd(), 0);
}

#[test]
fn get_user_cmd_edits_in_place() {
    let mut m = manager(152);
    *m.get_user_cmd() = 1000;
    assert_eq!(m.arr_commands[2], 1000);
    assert_eq!(m.arr_commands[1], 1);
    assert_eq!(m.n_sequence_number, 152);
    assert_eq!(m.n_previous_sequence_number, 151);
}

#[test]
fn get_user_cmd_wraps_negative_sequence_numbers() {
    let mut m = manager(-1);
    let expected = (-1i32 as usize) % 150;
    assert_eq!(*m.get_user_cmd() as usize, expected);
}

#[test]
fn sequence_numbers_a_ring_apart_share_a_slot() {
    for n in [0, 1, 77, 149, 1000, i32::MAX - 150] {
        let mut a = manager(n);
        let mut b = manager(n + 150);
        assert_eq!(*a.get_user_cmd(), *b.get_user_cmd());
        assert_eq!(*a.get_user_cmd() as i32, n % 150);
    }
}

#[test]
fn press_adds_the_button_to_the_held_mask() {
    let mut state = CInButtonState {
        vtable: [3; 8],
        n_value: ECommandButtons::IN_ATTACK.bits(),
        n_value_changed: 5,
        n_value_scroll: 6,
    };
    state.press(ECommandButtons::IN_SPRINT);
    assert_eq!(state.n_value, 0x1_0001);
    state.press(ECommandButtons::IN_SPRINT);
    assert_eq!(state.n_value, 0x1_0001);
    state.press(ECommandButtons::IN_ZOOM);
    assert_eq!(state.n_value, 0x4_0001_0001);
    assert_eq!(state.n_value_changed, 5);
    assert_eq!(state.n_value_scroll, 6);
    assert_eq!(state.vtable, [3; 8]);
}

#[test]
fn slot_of_sequence_number() {
    assert_eq!(user_cmd_slot(0), 0);
    assert_eq!(user_cmd_slot(149), 149);
    assert_eq!(user_cmd_slot(150), 0);
    assert_eq!(user_cmd_slot(151), 1);
    assert_eq!(user_cmd_slot(i32::MAX), (i32::MAX as usize) % 150);
    assert_eq!(user_cmd_slot(-1), (-1i32 as usize) % 150);
}
