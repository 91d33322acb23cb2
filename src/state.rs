use vstd::prelude::*;
use vstd::string::*;

verus! {

/// What happens to a session: the player is hit, or leaves the play field.
#[derive(Clone, Copy, Debug, PartialEq, Eq, Structural)]
pub enum GameEvent {
    Impact,
    LeftField,
}

/// Whether the session is still being played.
#[derive(Clone, Copy, Debug, PartialEq, Eq, Structural)]
pub enum Phase {
    Playing,
    Lost,
}

/// The mutable record of a session: remaining health and whether it is lost.
#[derive(Clone, Copy, Debug, PartialEq, Eq, Structural)]
pub struct GameState {
    pub health: u8,
    pub lost: bool,
}

/// The state after `e`: an impact costs one point of health while any is
/// left, leaving the field drops health to zero, and the session is lost
/// exactly when health is zero.
pub open spec fn after(s: GameState, e: GameEvent) -> GameState {
    let health: u8 = match e {
        GameEvent::Impact => if s.health > 0 { (s.health - 1) as u8 } else { 0u8 },
        GameEvent::LeftField => 0u8,
    };
    GameState { health, lost: health == 0 }
}

impl GameState {
    /// The state is lost exactly when no health is left.
    pub open spec fn wf(&self) -> bool {
        self.lost == (self.health == 0)
    }

    pub open spec fn phase_spec(&self) -> Phase {
        if self.lost { Phase::Lost } else { Phase::Playing }
    }

    /// A fresh session with the given health.
    pub fn new(health: u8) -> (r: GameState)
        ensures
            r.wf(),
            r.health == health,
    {
        GameState { health, lost: health == 0 }
    }

    pub fn phase(&self) -> (r: Phase)
        ensures
            r == self.phase_spec(),
    {
        if self.lost { Phase::Lost } else { Phase::Playing }
    }

    /// The transition function of the session.
    pub fn transition(self, e: GameEvent) -> (r: GameState)
        ensures
            r == after(self, e),
            r.wf(),
    {
        let health: u8 = match e {
            GameEvent::Impact => if self.health > 0 { self.health - 1 } else { 0 },
            GameEvent::LeftField => 0,
        };
        GameState { health, lost: health == 0 }
    }
}

/// The decimal digits of `n`, most significant first, without leading zeros.
pub open spec fn decimal(n: nat) -> Seq<char>
    decreases n,
{
    if n < 10 {
        seq![digit_char(n)]
    } else {
        decimal(n / 10).push(digit_char(n % 10))
    }
}

pub open spec fn digit_char(d: nat) -> char {
    if d == 0 { '0' }
    else if d == 1 { '1' }
    else if d == 2 { '2' }
    else if d == 3 { '3' }
    else if d == 4 { '4' }
    else if d == 5 { '5' }
    else if d == 6 { '6' }
    else if d == 7 { '7' }
    else if d == 8 { '8' }
    else { '9' }
}

/// The text shown for a health value: `Health: ` and its decimal digits.
pub open spec fn health_label(health: u8) -> Seq<char> {
    seq!['H', 'e', 'a', 'l', 't', 'h', ':', ' '] + decimal(health as nat)
}

fn digit_str(d: u8) -> (r: &'static str)
    requires
        d < 10,
    ensures
        r@ == seq![digit_char(d as nat)],
{
    proof {
        reveal_strlit("0");
        reveal_strlit("1");
        reveal_strlit("2");
        reveal_strlit("3");
        reveal_strlit("4");
        reveal_strlit("5");
        reveal_strlit("6");
        reveal_strlit("7");
        reveal_strlit("8");
        reveal_strlit("9");
    }
    if d == 0 { "0" }
    else if d == 1 { "1" }
    else if d == 2 { "2" }
    else if d == 3 { "3" }
    else if d == 4 { "4" }
    else if d == 5 { "5" }
    else if d == 6 { "6" }
    else if d == 7 { "7" }
    else if d == 8 { "8" }
    else { "9" }
}

/// The health display's text, such as `Health: 2`.
pub fn health_text(health: u8) -> (r: String)
    ensures
        r@ == health_label(health),
{
    proof {
        reveal_strlit("Health: ");
    }
    let mut r = String::from_str("Health: ");
    let ghost prefix = r@;
    if health >= 100 {
        r.append(digit_str(health / 100));
        r.append(digit_str((health / 10) % 10));
        r.append(digit_str(health % 10));
        proof {
            let n = health as nat;
            assert(decimal(n / 10 / 10) == seq![digit_char(n / 100)]);
            assert(decimal(n) == decimal(n / 10).push(digit_char(n % 10)));
            assert(decimal(n / 10) == decimal(n / 10 / 10).push(digit_char((n / 10) % 10)));
            assert(r@ =~= health_label(health));
        }
    } else if health >= 10 {
        r.append(digit_str(health / 10));
        r.append(digit_str(health % 10));
        proof {
            let n = health as nat;
            assert(decimal(n) == decimal(n / 10).push(digit_char(n % 10)));
            assert(r@ =~= health_label(health));
        }
    } else {
        r.append(digit_str(health));
        assert(r@ =~= health_label(health));
    }
    r
}

} // verus!
