use vstd::prelude::*;

verus! {

/// Offset of the create-move function from the client module's base.
pub const CREATEMOVE_OFFSET: usize = 0x8CE290;

/// Offset from the client module's base of the slot that holds the local
/// player's pawn.
pub const LOCAL_PLAYER_PAWN_OFFSET: usize = 0x188CF70;

/// Offset of the position vector inside a pawn.
pub const PAWN_POSITION_OFFSET: usize = 0x1324;

/// Offset of the velocity vector inside a pawn.
pub const PAWN_VELOCITY_OFFSET: usize = 0x3f0;

/// Address of the create-move function in a client module loaded at
/// `module_base`.
pub fn get_createmove_address(module_base: usize) -> (r: usize)
    requires
        module_base + CREATEMOVE_OFFSET <= usize::MAX,
    ensures
        r == module_base + CREATEMOVE_OFFSET,
{
    module_base + CREATEMOVE_OFFSET
}

/// Address of the slot that holds the local player's pawn in a client module
/// loaded at `module_base`.
pub fn local_player_pawn_address(module_base: usize) -> (r: usize)
    requires
        module_base + LOCAL_PLAYER_PAWN_OFFSET <= usize::MAX,
    ensures
        r == module_base + LOCAL_PLAYER_PAWN_OFFSET,
{
    module_base + LOCAL_PLAYER_PAWN_OFFSET
}

/// Address of the position vector of the pawn at `pawn`.
pub fn player_pos_address(pawn: usize) -> (r: usize)
    requires
        pawn + PAWN_POSITION_OFFSET <= usize::MAX,
    ensures
        r == pawn + PAWN_POSITION_OFFSET,
{
    pawn + PAWN_POSITION_OFFSET
}

/// Address of the velocity vector of the pawn at `pawn`.
pub fn player_velocity_address(pawn: usize) -> (r: usize)
    requires
        pawn + PAWN_VELOCITY_OFFSET <= usize::MAX,
    ensures
        r == pawn + PAWN_VELOCITY_OFFSET,
{
    pawn + PAWN_VELOCITY_OFFSET
}

/// What a route is, abstractly: the recorded waypoints, whether it is being
/// followed, and the index of the waypoint to reach next.
pub struct RouteModel<P> {
    pub positions: Seq<P>,
    pub enabled: bool,
    pub index: nat,
}

/// What a command tick does once the keys are handled.
#[derive(Debug, Clone, Copy, PartialEq, Eq, Structural)]
pub enum TickPlan {
    /// The route was not being followed when the tick began.
    Idle,
    /// The route was being followed but has no waypoint left; it stops.
    Finished,
    /// Steer towards the waypoint at this index.
    Follow(usize),
}

/// What to do with the movement of a tick that follows the route.
#[derive(Debug, Clone, Copy, PartialEq, Eq, Structural)]
pub enum MoveAction {
    /// Face the waypoint and move forward, sprinting if asked to.
    Steer { sprint: bool },
    /// The waypoint is reached: aim at the next one from the next tick on.
    Advance,
    /// Close to the waypoint but still moving: stop moving forward.
    Brake,
}

/// The movement decision for the current waypoint: steer while it is far,
/// sprint when it is within sprint range; once it is near, advance if the
/// player has come to rest and brake otherwise.
pub open spec fn move_action(far: bool, within_sprint: bool, settled: bool) -> MoveAction {
    if far {
        MoveAction::Steer { sprint: within_sprint }
    } else if settled {
        MoveAction::Advance
    } else {
        MoveAction::Brake
    }
}

impl<P> RouteModel<P> {
    /// The waypoint index never runs past the end of the route.
    pub open spec fn wf(self) -> bool {
        self.index <= self.positions.len()
    }

    /// The route after `pos` is recorded as its last waypoint.
    pub open spec fn recorded(self, pos: P) -> RouteModel<P> {
        RouteModel { positions: self.positions.push(pos), enabled: self.enabled, index: self.index }
    }

    /// The route after following is switched on or off; switching it on
    /// starts again from the first waypoint.
    pub open spec fn toggled(self) -> RouteModel<P> {
        RouteModel {
            positions: self.positions,
            enabled: !self.enabled,
            index: if self.enabled {
                self.index
            } else {
                0
            },
        }
    }

    /// The route after the keys of a tick: first the waypoint to record, if
    /// any, then the switch, if it was pressed.
    pub open spec fn keys_handled(self, recorded: Option<P>, toggle_pressed: bool) -> RouteModel<P> {
        let r = match recorded {
            Some(pos) => self.recorded(pos),
            None => self,
        };
        if toggle_pressed {
            r.toggled()
        } else {
            r
        }
    }

    /// Whether the route has no waypoint left to reach.
    pub open spec fn exhausted(self) -> bool {
        self.positions.len() == 0 || self.index >= self.positions.len()
    }

    /// What a tick does, given whether the route was followed when it began.
    pub open spec fn tick_plan(self, recorded: Option<P>, toggle_pressed: bool) -> TickPlan {
        let k = self.keys_handled(recorded, toggle_pressed);
        if !self.enabled {
            TickPlan::Idle
        } else if k.exhausted() {
            TickPlan::Finished
        } else {
            TickPlan::Follow(k.index as usize)
        }
    }

    /// The route after the first half of a tick: the keys are handled, and a
    /// route that was followed and has no waypoint left stops being followed.
    pub open spec fn after_tick(self, recorded: Option<P>, toggle_pressed: bool) -> RouteModel<P> {
        let k = self.keys_handled(recorded, toggle_pressed);
        if self.enabled && k.exhausted() {
            RouteModel { positions: k.positions, enabled: false, index: k.index }
        } else {
            k
        }
    }

    /// The route after a movement decision: only reaching a waypoint moves
    /// on to the next one.
    pub open spec fn after_move(self, action: MoveAction) -> RouteModel<P> {
        match action {
            MoveAction::Advance => RouteModel {
                positions: self.positions,
                enabled: self.enabled,
                index: self.index + 1,
            },
            _ => self,
        }
    }
}

/// A recorded route and the state of following it.
pub struct Route<P> {
    positions: Vec<P>,
    enabled: bool,
    current_pos_index: usize,
}

impl<P> View for Route<P> {
    type V = RouteModel<P>;

    closed spec fn view(&self) -> RouteModel<P> {
        RouteModel {
            positions: self.positions@,
            enabled: self.enabled,
            index: self.current_pos_index as nat,
        }
    }
}

impl<P> Route<P> {
    /// The waypoint index never runs past the end of the route.
    #[verifier::type_invariant]
    spec fn index_in_range(self) -> bool {
        self.current_pos_index <= self.positions.len()
    }

    /// An empty route that is not being followed.
    pub fn new() -> (r: Route<P>)
        ensures
            r@.positions == Seq::<P>::empty(),
            !r@.enabled,
            r@.index == 0,
            r@.wf(),
    {
        Route { positions: Vec::new(), enabled: false, current_pos_index: 0 }
    }

    /// The number of recorded waypoints.
    pub fn len(&self) -> (r: usize)
        ensures
            r == self@.positions.len(),
            self@.wf(),
    {
        proof {
            use_type_invariant(self);
        }
        self.positions.len()
    }

    /// Whether the route is being followed.
    pub fn is_enabled(&self) -> (r: bool)
        ensures
            r == self@.enabled,
    {
        self.enabled
    }

    /// The index of the waypoint to reach next.
    pub fn current_pos_index(&self) -> (r: usize)
        ensures
            r == self@.index,
    {
        self.current_pos_index
    }

    /// The waypoint at `index`.
    pub fn position(&self, index: usize) -> (r: &P)
        requires
            index < self@.positions.len(),
        ensures
            *r == self@.positions[index as int],
    {
        &self.positions[index]
    }

    /// Records `pos` as the last waypoint.
    pub fn record(&mut self, pos: P)
        ensures
            final(self)@ == old(self)@.recorded(pos),
            final(self)@.wf(),
            final(self)@.positions == old(self)@.positions.push(pos),
            final(self)@.enabled == old(self)@.enabled,
            final(self)@.index == old(self)@.index,
    {
        let mut taken = Route::new();
        std::mem::swap(self, &mut taken);
        proof {
            use_type_invariant(&taken);
        }
        let Route { mut positions, enabled, current_pos_index } = taken;
        positions.push(pos);
        *self = Route { positions, enabled, current_pos_index };
    }

    /// Switches following on or off; switching it on starts from the first
    /// waypoint.
    pub fn toggle(&mut self)
        ensures
            final(self)@ == old(self)@.toggled(),
            final(self)@.wf(),
            final(self)@.enabled == !old(self)@.enabled,
            final(self)@.index == if old(self)@.enabled {
                old(self)@.index
            } else {
                0
            },
            final(self)@.positions == old(self)@.positions,
    {
        proof {
            use_type_invariant(&*self);
        }
        if !self.enabled {
            self.current_pos_index = 0;
        }
        self.enabled = !self.enabled;
    }

    /// The first half of a command tick: records `recorded` if the record key
    /// was pressed, switches following if the toggle key was pressed, then,
    /// if the route was being followed when the tick began, says which
    /// waypoint to steer towards, or stops following when none is left.
    pub fn begin_tick(&mut self, recorded: Option<P>, toggle_pressed: bool) -> (r: TickPlan)
        ensures
            r == old(self)@.tick_plan(recorded, toggle_pressed),
            final(self)@ == old(self)@.after_tick(recorded, toggle_pressed),
            final(self)@.wf(),
            r matches TickPlan::Follow(i) ==> i == final(self)@.index && i < final(self)@.positions.len(),
            recorded is Some ==> final(self)@.positions == old(self)@.positions.push(recorded->0),
            recorded is None ==> final(self)@.positions == old(self)@.positions,
            toggle_pressed && !old(self)@.enabled ==> final(self)@.enabled && final(self)@.index == 0,
            toggle_pressed && old(self)@.enabled ==> !final(self)@.enabled && final(self)@.index == old(self)@.index,
            !toggle_pressed ==> final(self)@.index == old(self)@.index,
            !old(self)@.enabled ==> r == TickPlan::Idle,
            !old(self)@.enabled && !toggle_pressed ==> !final(self)@.enabled,
            old(self)@.enabled && old(self)@.index < final(self)@.positions.len() ==> r
                == TickPlan::Follow(old(self)@.index as usize),
            old(self)@.enabled && old(self)@.index >= final(self)@.positions.len() ==> r
                == TickPlan::Finished && !final(self)@.enabled,
            old(self)@.enabled && !toggle_pressed && old(self)@.index < final(self)@.positions.len() ==> final(self)@.enabled,
    {
        proof {
            use_type_invariant(&*self);
        }
        let was_enabled = self.enabled;
        match recorded {
            Some(pos) => self.record(pos),
            None => {},
        }
        if toggle_pressed {
            self.toggle();
        }
        proof {
            use_type_invariant(&*self);
        }
        if !was_enabled {
            return TickPlan::Idle;
        }
        if self.positions.len() == 0 || self.current_pos_index >= self.positions.len() {
            self.enabled = false;
            return TickPlan::Finished;
        }
        TickPlan::Follow(self.current_pos_index)
    }

    /// The second half of a tick that follows the route: given whether the
    /// current waypoint is far, whether it is within sprint range and
    /// whether the player has come to rest, decides the movement and moves on
    /// to the next waypoint when the current one is reached.
    pub fn steer(&mut self, far: bool, within_sprint: bool, settled: bool) -> (r: MoveAction)
        requires
            old(self)@.index < old(self)@.positions.len(),
        ensures
            r == move_action(far, within_sprint, settled),
            final(self)@ == old(self)@.after_move(r),
            final(self)@.wf(),
            far ==> r == (MoveAction::Steer { sprint: within_sprint }) && final(self)@ == old(self)@,
            !far && settled ==> r == MoveAction::Advance && final(self)@.index == old(self)@.index + 1
                && final(self)@.positions == old(self)@.positions && final(self)@.enabled == old(self)@.enabled,
            !far && !settled ==> r == MoveAction::Brake && final(self)@ == old(self)@,
    {
        proof {
            use_type_invariant(&*self);
        }
        if far {
            MoveAction::Steer { sprint: within_sprint }
        } else if settled {
            assert(self.current_pos_index < self.positions.len());
            self.current_pos_index = self.current_pos_index + 1;
            MoveAction::Advance
        } else {
            MoveAction::Brake
        }
    }
}

/// Every step of the route keeps the waypoint index within the route:
/// recording, switching, the first half of a tick, and a movement decision
/// taken while a waypoint is left.
pub proof fn lemma_steps_keep_index_in_range<P>(
    m: RouteModel<P>,
    pos: P,
    recorded: Option<P>,
    toggle_pressed: bool,
    action: MoveAction,
)
    requires
        m.wf(),
    ensures
        m.recorded(pos).wf(),
        m.toggled().wf(),
        m.after_tick(recorded, toggle_pressed).wf(),
        m.index < m.positions.len() ==> m.after_move(action).wf(),
{
}

/// Recording appends: the waypoints recorded before stay where they were,
/// the new one comes last, and following goes on as before.
pub proof fn lemma_recording_appends<P>(m: RouteModel<P>, pos: P)
    ensures
        m.recorded(pos).positions.len() == m.positions.len() + 1,
        m.recorded(pos).positions.last() == pos,
        m.recorded(pos).positions.take(m.positions.len() as int) == m.positions,
        m.recorded(pos).enabled == m.enabled,
        m.recorded(pos).index == m.index,
{
    assert(m.recorded(pos).positions.take(m.positions.len() as int) =~= m.positions);
}

/// Switching following on starts from the first waypoint; switching it off
/// keeps the place; switching twice restores the on/off state, and neither
/// touches the waypoints.
pub proof fn lemma_toggle<P>(m: RouteModel<P>)
    ensures
        !m.enabled ==> m.toggled().enabled && m.toggled().index == 0,
        m.enabled ==> !m.toggled().enabled && m.toggled().index == m.index,
        m.toggled().toggled().enabled == m.enabled,
        m.toggled().positions == m.positions,
        m.toggled().toggled().positions == m.positions,
{
}

/// A tick decides on the state the route had when it began: a route that was
/// not followed is not steered this tick, whatever keys were pressed, and a
/// route that was followed is steered only towards a waypoint that exists,
/// the one its index names.
pub proof fn lemma_tick_follows_only_existing_waypoints<P>(
    m: RouteModel<P>,
    recorded: Option<P>,
    toggle_pressed: bool,
)
    requires
        m.wf(),
        m.positions.len() <= usize::MAX,
    ensures
        !m.enabled ==> m.tick_plan(recorded, toggle_pressed) == TickPlan::Idle,
        m.tick_plan(recorded, toggle_pressed) matches TickPlan::Follow(i) ==> {
            &&& m.enabled
            &&& i == m.after_tick(recorded, toggle_pressed).index
            &&& i < m.after_tick(recorded, toggle_pressed).positions.len()
        },
{
}

/// A followed route with no waypoint left stops being followed, and the
/// tick says so.
pub proof fn lemma_exhausted_route_stops<P>(
    m: RouteModel<P>,
    recorded: Option<P>,
    toggle_pressed: bool,
)
    requires
        m.enabled,
        m.keys_handled(recorded, toggle_pressed).exhausted(),
    ensures
        m.tick_plan(recorded, toggle_pressed) == TickPlan::Finished,
        !m.after_tick(recorded, toggle_pressed).enabled,
{
}

/// Waypoints are reached in order: a tick either keeps the waypoint index or
/// restarts it at the first waypoint when following is switched on, and a
/// movement decision moves it on by exactly one waypoint when, and only
/// when, the waypoint is near and the player is at rest.
pub proof fn lemma_waypoints_in_order<P>(
    m: RouteModel<P>,
    recorded: Option<P>,
    toggle_pressed: bool,
    far: bool,
    within_sprint: bool,
    settled: bool,
)
    ensures
        m.after_tick(recorded, toggle_pressed).index == m.index || (toggle_pressed && !m.enabled
            && m.after_tick(recorded, toggle_pressed).index == 0),
        m.after_move(move_action(far, within_sprint, settled)).index == if !far && settled {
            m.index + 1
        } else {
            m.index
        },
        m.after_move(move_action(far, within_sprint, settled)).positions == m.positions,
        m.after_move(move_action(far, within_sprint, settled)).enabled == m.enabled,
{
}

/// The movement decision in terms of its inputs: a far waypoint is steered
/// towards, sprinting exactly when within sprint range; a waypoint that is
/// not far is reached (and the index moves on by one) when the player is at
/// rest, and braked for otherwise, whatever the sprint range says.
pub proof fn lemma_move_action_meaning<P>(
    m: RouteModel<P>,
    far: bool,
    within_sprint: bool,
    settled: bool,
)
    ensures
        far ==> move_action(far, within_sprint, settled) == (MoveAction::Steer {
            sprint: within_sprint,
        }),
        !far && settled ==> move_action(far, within_sprint, settled) == MoveAction::Advance,
        !far && !settled ==> move_action(far, within_sprint, settled) == MoveAction::Brake,
        !far && !settled ==> m.after_move(move_action(far, within_sprint, settled)) == m,
        far ==> m.after_move(move_action(far, within_sprint, settled)) == m,
        !far && settled ==> m.after_move(move_action(far, within_sprint, settled)).index == m.index
            + 1,
{
}

/// The key handling of a tick in terms of its inputs: a recorded waypoint is
/// appended; pressing the switch on a route that was not followed turns it
/// on at the first waypoint, whatever index it stopped at, and pressing it
/// on a followed route turns it off in place; without the switch the index
/// stays put.
pub proof fn lemma_keys_meaning<P>(m: RouteModel<P>, recorded: Option<P>, toggle_pressed: bool)
    ensures
        recorded is Some ==> m.keys_handled(recorded, toggle_pressed).positions
            == m.positions.push(recorded->0),
        recorded is None ==> m.keys_handled(recorded, toggle_pressed).positions == m.positions,
        toggle_pressed && !m.enabled ==> m.keys_handled(recorded, toggle_pressed).enabled
            && m.keys_handled(recorded, toggle_pressed).index == 0,
        toggle_pressed && !m.enabled ==> m.after_tick(recorded, toggle_pressed).enabled
            && m.after_tick(recorded, toggle_pressed).index == 0,
        toggle_pressed && m.enabled ==> !m.after_tick(recorded, toggle_pressed).enabled
            && m.after_tick(recorded, toggle_pressed).index == m.index,
        !toggle_pressed ==> m.after_tick(recorded, toggle_pressed).index == m.index
            && m.keys_handled(recorded, toggle_pressed).enabled == m.enabled,
{
}

/// The plan of a tick in terms of its inputs: nothing is steered on a route
/// that was not followed when the tick began; on one that was, the tick
/// steers towards the waypoint at its index if that waypoint exists (after
/// recording) and otherwise stops following.
pub proof fn lemma_tick_plan_meaning<P>(
    m: RouteModel<P>,
    recorded: Option<P>,
    toggle_pressed: bool,
)
    requires
        m.positions.len() <= usize::MAX,
    ensures
        !m.enabled ==> m.tick_plan(recorded, toggle_pressed) == TickPlan::Idle,
        m.enabled && m.index < m.keys_handled(recorded, toggle_pressed).positions.len() ==> m.tick_plan(
            recorded,
            toggle_pressed,
        ) == TickPlan::Follow(m.index as usize),
        m.enabled && m.index >= m.keys_handled(recorded, toggle_pressed).positions.len() ==> m.tick_plan(
            recorded,
            toggle_pressed,
        ) == TickPlan::Finished && !m.after_tick(recorded, toggle_pressed).enabled,
{
}

} // verus!
