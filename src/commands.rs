use vstd::prelude::*;

verus! {

/// Key code of the "previous" key sent for a leftward scrub.
pub const SCRUB_LEFT_KEY: u16 = 105;

/// Key code of the "next" key sent for a rightward scrub.
pub const SCRUB_RIGHT_KEY: u16 = 106;

/// Whether a synthetic key is released or pressed.
#[derive(Clone, Copy, Debug, PartialEq, Eq, Structural)]
pub enum KeyState {
    Up,
    Down,
}

impl KeyState {
    /// The state's numeric code: 0 for up, 1 for down.
    pub fn code(&self) -> (r: u8)
        ensures
            r == (if *self == KeyState::Up { 0u8 } else { 1u8 }),
    {
        match self {
            KeyState::Up => 0,
            KeyState::Down => 1,
        }
    }
}

/// A key event of a horizontal scrub.
#[derive(Clone, Copy, Debug, PartialEq, Eq, Structural)]
pub enum ScrubState {
    Left(KeyState),
    Right(KeyState),
}

impl ScrubState {
    /// The key the scrub sends: 105 to the left, 106 to the right.
    pub fn key_code(&self) -> (r: u16)
        ensures
            r == (if *self is Left { SCRUB_LEFT_KEY } else { SCRUB_RIGHT_KEY }),
    {
        match self {
            ScrubState::Left(_) => SCRUB_LEFT_KEY,
            ScrubState::Right(_) => SCRUB_RIGHT_KEY,
        }
    }

    /// Whether the key goes down or up.
    pub fn key_state(&self) -> (r: KeyState)
        ensures
            *self matches ScrubState::Left(k) ==> r == k,
            *self matches ScrubState::Right(k) ==> r == k,
    {
        match self {
            ScrubState::Left(k) => *k,
            ScrubState::Right(k) => *k,
        }
    }
}

/// A relative percentage change: `amount` percent up when `raise`, else down.
#[derive(Clone, Copy, Debug, PartialEq, Eq, Structural)]
pub struct PercentStep {
    pub amount: u64,
    pub raise: bool,
}

/// The absolute value of an integer.
pub open spec fn abs(x: int) -> int {
    if x < 0 {
        -x
    } else {
        x
    }
}

/// The percentage step for a signed adjustment: its magnitude, raised when
/// the adjustment is not negative.
pub fn percent_step(adjustment: i64) -> (r: PercentStep)
    ensures
        r.amount == abs(adjustment as int),
        r.raise == (adjustment >= 0),
{
    if adjustment < 0 {
        let amount: u64 = if adjustment == i64::MIN {
            0x8000_0000_0000_0000u64
        } else {
            (-adjustment) as u64
        };
        PercentStep { amount, raise: false }
    } else {
        PercentStep { amount: adjustment as u64, raise: true }
    }
}

impl PercentStep {
    /// The suffix that tells the controls the direction: "%+" or "%-".
    pub fn suffix(&self) -> (r: &'static str)
        ensures
            r@ == (if self.raise { "%+"@ } else { "%-"@ }),
    {
        if self.raise {
            "%+"
        } else {
            "%-"
        }
    }
}

} // verus!
