use vstd::prelude::*;

verus! {

/// The largest ordinal of an activity state.
pub const MAX_STATE: u32 = 5;

/// The closed set of activity states the entity can show.
#[derive(Debug, Clone, Copy, PartialEq, Eq, Structural)]
pub enum EntityState {
    Idle,
    Curious,
    Focused,
    Amused,
    Alert,
    Sleepy,
}

/// The stable ordinal of a state, as consumed by the render pipeline.
pub open spec fn ordinal(s: EntityState) -> u32 {
    match s {
        EntityState::Idle => 0,
        EntityState::Curious => 1,
        EntityState::Focused => 2,
        EntityState::Amused => 3,
        EntityState::Alert => 4,
        EntityState::Sleepy => 5,
    }
}

/// The state whose wire name is `name`, if any.
pub open spec fn state_named(name: Seq<char>) -> Option<EntityState> {
    if name == "idle"@ {
        Some(EntityState::Idle)
    } else if name == "curious"@ {
        Some(EntityState::Curious)
    } else if name == "focused"@ {
        Some(EntityState::Focused)
    } else if name == "amused"@ {
        Some(EntityState::Amused)
    } else if name == "alert"@ {
        Some(EntityState::Alert)
    } else if name == "sleepy"@ {
        Some(EntityState::Sleepy)
    } else {
        None
    }
}

/// Ordinals above the last state are read as the last state.
pub open spec fn clamp_ordinal(n: u32) -> u32 {
    if n > MAX_STATE {
        MAX_STATE
    } else {
        n
    }
}

/// Character-wise equality of two strings.
pub fn text_eq(a: &str, b: &str) -> (r: bool)
    ensures
        r == (a@ == b@),
{
    let n = a.unicode_len();
    if n != b.unicode_len() {
        return false;
    }
    let mut i: usize = 0;
    while i < n
        invariant
            n == a@.len(),
            n == b@.len(),
            i <= n,
            a@.subrange(0, i as int) == b@.subrange(0, i as int),
        decreases n - i,
    {
        if a.get_char(i) != b.get_char(i) {
            return false;
        }
        assert(a@.subrange(0, i + 1) == a@.subrange(0, i as int).push(a@[i as int]));
        assert(b@.subrange(0, i + 1) == b@.subrange(0, i as int).push(b@[i as int]));
        i = i + 1;
    }
    assert(a@ == a@.subrange(0, n as int));
    assert(b@ == b@.subrange(0, n as int));
    true
}

/// The state shown in step `step` of the automatic cycle through all states.
pub fn cycle_state(step: u32) -> (r: u32)
    ensures
        r == step as int % (MAX_STATE as int + 1),
        r <= MAX_STATE,
{
    step % (MAX_STATE + 1)
}

impl EntityState {
    pub fn as_u32(self) -> (r: u32)
        ensures
            r == ordinal(self),
            r <= MAX_STATE,
    {
        match self {
            EntityState::Idle => 0,
            EntityState::Curious => 1,
            EntityState::Focused => 2,
            EntityState::Amused => 3,
            EntityState::Alert => 4,
            EntityState::Sleepy => 5,
        }
    }

    /// The state with the given ordinal; ordinals past the last state give `None`.
    pub fn from_u32(n: u32) -> (r: Option<EntityState>)
        ensures
            n <= MAX_STATE <==> r is Some,
            r matches Some(s) ==> ordinal(s) == n,
    {
        match n {
            0 => Some(EntityState::Idle),
            1 => Some(EntityState::Curious),
            2 => Some(EntityState::Focused),
            3 => Some(EntityState::Amused),
            4 => Some(EntityState::Alert),
            5 => Some(EntityState::Sleepy),
            _ => None,
        }
    }

    /// The state whose lowercase wire name is `name`.
    pub fn from_name(name: &str) -> (r: Option<EntityState>)
        ensures
            r == state_named(name@),
    {
        if text_eq(name, "idle") {
            Some(EntityState::Idle)
        } else if text_eq(name, "curious") {
            Some(EntityState::Curious)
        } else if text_eq(name, "focused") {
            Some(EntityState::Focused)
        } else if text_eq(name, "amused") {
            Some(EntityState::Amused)
        } else if text_eq(name, "alert") {
            Some(EntityState::Alert)
        } else if text_eq(name, "sleepy") {
            Some(EntityState::Sleepy)
        } else {
            None
        }
    }
}

} // verus!
