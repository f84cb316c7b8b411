use vstd::prelude::*;

verus! {

/// The command buttons of a user command, each one bit of a 64-bit mask.
#[allow(non_camel_case_types)]
#[derive(Debug, Clone, Copy, PartialEq, Eq, Structural)]
pub enum ECommandButtons {
    IN_ATTACK,
    IN_JUMP,
    IN_DUCK,
    IN_FORWARD,
    IN_BACK,
    IN_USE,
    IN_LEFT,
    IN_RIGHT,
    IN_MOVELEFT,
    IN_MOVERIGHT,
    IN_SECOND_ATTACK,
    IN_RELOAD,
    IN_SPRINT,
    IN_JOYAUTOSPRINT,
    IN_SHOWSCORES,
    IN_ZOOM,
    IN_LOOKATWEAPON,
}

/// The literal mask of every button is its single shifted bit.
proof fn lemma_button_masks()
    by (bit_vector)
    ensures
        1u64 << 0u64 == 0x1u64,
        1u64 << 1u64 == 0x2u64,
        1u64 << 2u64 == 0x4u64,
        1u64 << 3u64 == 0x8u64,
        1u64 << 4u64 == 0x10u64,
        1u64 << 5u64 == 0x20u64,
        1u64 << 7u64 == 0x80u64,
        1u64 << 8u64 == 0x100u64,
        1u64 << 9u64 == 0x200u64,
        1u64 << 10u64 == 0x400u64,
        1u64 << 11u64 == 0x800u64,
        1u64 << 13u64 == 0x2000u64,
        1u64 << 16u64 == 0x1_0000u64,
        1u64 << 17u64 == 0x2_0000u64,
        1u64 << 33u64 == 0x2_0000_0000u64,
        1u64 << 34u64 == 0x4_0000_0000u64,
        1u64 << 35u64 == 0x8_0000_0000u64,
{
}

impl ECommandButtons {
    /// Position of the button's bit in the button mask.
    pub open spec fn bit_index(self) -> u64 {
        match self {
            ECommandButtons::IN_ATTACK => 0,
            ECommandButtons::IN_JUMP => 1,
            ECommandButtons::IN_DUCK => 2,
            ECommandButtons::IN_FORWARD => 3,
            ECommandButtons::IN_BACK => 4,
            ECommandButtons::IN_USE => 5,
            ECommandButtons::IN_LEFT => 7,
            ECommandButtons::IN_RIGHT => 8,
            ECommandButtons::IN_MOVELEFT => 9,
            ECommandButtons::IN_MOVERIGHT => 10,
            ECommandButtons::IN_SECOND_ATTACK => 11,
            ECommandButtons::IN_RELOAD => 13,
            ECommandButtons::IN_SPRINT => 16,
            ECommandButtons::IN_JOYAUTOSPRINT => 17,
            ECommandButtons::IN_SHOWSCORES => 33,
            ECommandButtons::IN_ZOOM => 34,
            ECommandButtons::IN_LOOKATWEAPON => 35,
        }
    }

    /// The button's mask in a button state.
    pub open spec fn mask(self) -> u64 {
        match self {
            ECommandButtons::IN_ATTACK => 0x1,
            ECommandButtons::IN_JUMP => 0x2,
            ECommandButtons::IN_DUCK => 0x4,
            ECommandButtons::IN_FORWARD => 0x8,
            ECommandButtons::IN_BACK => 0x10,
            ECommandButtons::IN_USE => 0x20,
            ECommandButtons::IN_LEFT => 0x80,
            ECommandButtons::IN_RIGHT => 0x100,
            ECommandButtons::IN_MOVELEFT => 0x200,
            ECommandButtons::IN_MOVERIGHT => 0x400,
            ECommandButtons::IN_SECOND_ATTACK => 0x800,
            ECommandButtons::IN_RELOAD => 0x2000,
            ECommandButtons::IN_SPRINT => 0x1_0000,
            ECommandButtons::IN_JOYAUTOSPRINT => 0x2_0000,
            ECommandButtons::IN_SHOWSCORES => 0x2_0000_0000,
            ECommandButtons::IN_ZOOM => 0x4_0000_0000,
            ECommandButtons::IN_LOOKATWEAPON => 0x8_0000_0000,
        }
    }

    /// The button's mask, the value the button takes in a button state.
    pub fn bits(self) -> (r: u64)
        ensures
            r == self.mask(),
    {
        match self {
            ECommandButtons::IN_ATTACK => 0x1,
            ECommandButtons::IN_JUMP => 0x2,
            ECommandButtons::IN_DUCK => 0x4,
            ECommandButtons::IN_FORWARD => 0x8,
            ECommandButtons::IN_BACK => 0x10,
            ECommandButtons::IN_USE => 0x20,
            ECommandButtons::IN_LEFT => 0x80,
            ECommandButtons::IN_RIGHT => 0x100,
            ECommandButtons::IN_MOVELEFT => 0x200,
            ECommandButtons::IN_MOVERIGHT => 0x400,
            ECommandButtons::IN_SECOND_ATTACK => 0x800,
            ECommandButtons::IN_RELOAD => 0x2000,
            ECommandButtons::IN_SPRINT => 0x1_0000,
            ECommandButtons::IN_JOYAUTOSPRINT => 0x2_0000,
            ECommandButtons::IN_SHOWSCORES => 0x2_0000_0000,
            ECommandButtons::IN_ZOOM => 0x4_0000_0000,
            ECommandButtons::IN_LOOKATWEAPON => 0x8_0000_0000,
        }
    }
}

/// Two distinct single bits never overlap.
proof fn lemma_single_bits_disjoint(i: u64, j: u64)
    by (bit_vector)
    requires
        i < 64,
        j < 64,
        i != j,
    ensures
        (1u64 << i) & (1u64 << j) == 0,
{
}

/// Every button is the single bit `1 << bit_index`, and two different
/// buttons never share a bit, so any set of buttons can be combined in one
/// mask and told apart again.
pub proof fn lemma_buttons_disjoint(a: ECommandButtons, b: ECommandButtons)
    ensures
        a.mask() == 1u64 << a.bit_index(),
        a.mask() != 0,
        a != b ==> a.mask() & b.mask() == 0,
{
    lemma_button_masks();
    if a != b {
        assert(a.bit_index() != b.bit_index());
        lemma_single_bits_disjoint(a.bit_index(), b.bit_index());
    }
}

/// The has-bits flags of a button-state message: which of its three button
/// states are present.
#[allow(non_camel_case_types)]
pub enum EButtonStatePBBits {
    BUTTON_STATE_PB_BITS_BUTTONSTATE1,
    BUTTON_STATE_PB_BITS_BUTTONSTATE2,
    BUTTON_STATE_PB_BITS_BUTTONSTATE3,
}

impl EButtonStatePBBits {
    /// The flag's value in a has-bits field.
    pub open spec fn mask(&self) -> u32 {
        match self {
            EButtonStatePBBits::BUTTON_STATE_PB_BITS_BUTTONSTATE1 => 0x1,
            EButtonStatePBBits::BUTTON_STATE_PB_BITS_BUTTONSTATE2 => 0x2,
            EButtonStatePBBits::BUTTON_STATE_PB_BITS_BUTTONSTATE3 => 0x4,
        }
    }

    /// The flag's value in a has-bits field.
    pub fn bits(&self) -> (r: u32)
        ensures
            r == self.mask(),
    {
        match self {
            EButtonStatePBBits::BUTTON_STATE_PB_BITS_BUTTONSTATE1 => 0x1,
            EButtonStatePBBits::BUTTON_STATE_PB_BITS_BUTTONSTATE2 => 0x2,
            EButtonStatePBBits::BUTTON_STATE_PB_BITS_BUTTONSTATE3 => 0x4,
        }
    }
}

/// The header shared by every protobuf message of a user command.
#[derive(Debug)]
pub struct CBasePB {
    pub vtable: [u8; 8],
    pub n_has_bits: u32,
    pub n_cached_bits: u64,
}

impl CBasePB {
    /// Marks the bits of `n_bits` in the cached-bits mask.
    pub fn set_bits(&mut self, n_bits: u64)
        ensures
            final(self).n_cached_bits == old(self).n_cached_bits | n_bits,
            final(self).n_has_bits == old(self).n_has_bits,
            final(self).vtable == old(self).vtable,
            final(self).n_cached_bits & n_bits == n_bits,
            final(self).n_cached_bits & old(self).n_cached_bits == old(self).n_cached_bits,
    {
        let old_bits: u64 = self.n_cached_bits;
        self.n_cached_bits = self.n_cached_bits | n_bits;
        proof {
            lemma_or_keeps_both(old_bits, n_bits);
        }
    }
}

/// An or keeps the bits of both operands.
proof fn lemma_or_keeps_both(a: u64, b: u64)
    by (bit_vector)
    ensures
        (a | b) & b == b,
        (a | b) & a == a,
{
}

/// Marking bits is idempotent and order-free: marking `a` then `b` gives the
/// mask that marking `b` then `a` gives, and marking `a` twice gives the mask
/// that marking it once gives.
pub proof fn lemma_set_bits_commute(cached: u64, a: u64, b: u64)
    by (bit_vector)
    ensures
        (cached | a) | b == (cached | b) | a,
        (cached | a) | a == cached | a,
{
}

/// The button-state message: three button masks behind a message header.
#[derive(Debug)]
pub struct CInButtonStatePB {
    pub base: CBasePB,
    pub buttonstate1: u64,
    pub buttonstate2: u64,
    pub buttonstate3: u64,
}

/// The button state of a user command: the held buttons, the buttons that
/// changed this tick and the scroll buttons.
#[derive(Debug)]
pub struct CInButtonState {
    pub vtable: [u8; 8],
    pub n_value: u64,
    pub n_value_changed: u64,
    pub n_value_scroll: u64,
}

impl CInButtonState {
    /// Holds `button` down: its bit joins the held-button mask, and nothing
    /// else changes.
    pub fn press(&mut self, button: ECommandButtons)
        ensures
            final(self).n_value == old(self).n_value | button.mask(),
            final(self).n_value_changed == old(self).n_value_changed,
            final(self).n_value_scroll == old(self).n_value_scroll,
            final(self).vtable == old(self).vtable,
    {
        self.n_value = self.n_value | button.bits();
    }
}

/// Number of command slots in the command ring.
pub const MULTIPLAYER_BACKUP: usize = 150;

/// Ring slot that holds the command of a sequence number: the number, taken
/// as a machine-width unsigned integer, modulo the ring's length.
pub open spec fn command_slot(n_sequence_number: i32) -> int {
    (n_sequence_number as usize) as int % (MULTIPLAYER_BACKUP as int)
}

/// The ring slot that holds the command of `n_sequence_number`.
pub fn user_cmd_slot(n_sequence_number: i32) -> (r: usize)
    ensures
        r == command_slot(n_sequence_number),
        r < MULTIPLAYER_BACKUP,
        r as int == (n_sequence_number as usize) as int % 150,
        0 <= n_sequence_number ==> r as int == n_sequence_number % 150,
{
    n_sequence_number as usize % MULTIPLAYER_BACKUP
}

/// The ring of recent user commands and the sequence numbers that index it.
pub struct CUserCmdManager<C> {
    pub arr_commands: [C; 150],
    pub n_sequence_number: i32,
    pub n_previous_sequence_number: i32,
}

impl<C> CUserCmdManager<C> {
    /// The command of the current sequence number, for editing in place.
    pub fn get_user_cmd(&mut self) -> (r: &mut C)
        ensures
            0 <= command_slot(old(self).n_sequence_number) < 150,
            *r == old(self).arr_commands@[command_slot(old(self).n_sequence_number)],
            *r == old(self).arr_commands@[(old(self).n_sequence_number as usize) as int % 150],
            final(self).arr_commands@ == old(self).arr_commands@.update(
                command_slot(old(self).n_sequence_number),
                *final(r),
            ),
            final(self).n_sequence_number == old(self).n_sequence_number,
            final(self).n_previous_sequence_number == old(self).n_previous_sequence_number,
    {
        let slot: usize = user_cmd_slot(self.n_sequence_number);
        &mut self.arr_commands[slot]
    }
}

/// For a non-negative sequence number the command sits in slot `n % 150`,
/// and sequence numbers one ring's length apart share a slot.
pub proof fn lemma_command_slot_cycles(n: i32)
    requires
        0 <= n,
        n + 150 <= i32::MAX,
    ensures
        command_slot(n) == n % 150,
        command_slot((n + 150) as i32) == command_slot(n),
{
}

} // verus!
