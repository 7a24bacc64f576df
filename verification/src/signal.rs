use vstd::prelude::*;

verus! {

/// A named trading signal with a signed strength in fixed-point
/// millionths: positive argues for buying, negative for selling.
pub struct Signal {
    pub name: String,
    pub value: i64,
}

/// The action a signal argues for.
#[derive(Clone, Copy, Debug, PartialEq, Eq, Structural)]
pub enum SignalAction {
    Buy,
    Sell,
    Hold,
}

impl Signal {
    pub fn new(name: &str, value: i64) -> (r: Signal)
        ensures
            r.name@ == name@,
            r.value == value,
    {
        Signal { name: name.to_string(), value }
    }

    pub fn should_buy(&self) -> (r: bool)
        ensures
            r == (self.value > 0),
    {
        self.value > 0
    }

    pub fn should_sell(&self) -> (r: bool)
        ensures
            r == (self.value < 0),
    {
        self.value < 0
    }
}

/// The action a signal's strength argues for: buy on positive, sell
/// on negative, hold on zero.
pub fn signal_action(signal: &Signal) -> (r: SignalAction)
    ensures
        signal.value > 0 ==> r == SignalAction::Buy,
        signal.value < 0 ==> r == SignalAction::Sell,
        signal.value == 0 ==> r == SignalAction::Hold,
{
    if signal.should_buy() {
        SignalAction::Buy
    } else if signal.should_sell() {
        SignalAction::Sell
    } else {
        SignalAction::Hold
    }
}

} // verus!
