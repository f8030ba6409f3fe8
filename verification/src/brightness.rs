//! Brightness of the display.

use vstd::prelude::*;

verus! {

/// A brightness that can be shown: where the display stands, and how far it goes.
#[derive(Clone, Copy, Debug, PartialEq, Eq, Structural)]
pub struct BrightnessState {
    pub value: i32,
    pub max: i32,
}

/// A report of the settings daemon. `Sender` brings the channel, held by a number,
/// on which the daemon takes requests.
#[derive(Clone, Copy, Debug, PartialEq, Eq, Structural)]
pub enum BrightnessEvent {
    Sender(u64),
    MaxDisplayBrightness(i32),
    DisplayBrightness(i32),
}

/// A request to the settings daemon.
#[derive(Clone, Copy, Debug, PartialEq, Eq, Structural)]
pub enum BrightnessRequest {
    GetDisplayBrightness,
    GetMaxDisplayBrightness,
    SetDisplayBrightness(i32),
}

/// What is known of the display's brightness, and what of it can be shown.
#[derive(Clone, Copy, Debug, PartialEq, Eq, Structural)]
pub struct Brightness {
    pub sender: Option<u64>,
    pub value: Option<i32>,
    pub max: Option<i32>,
    pub shown: Option<BrightnessState>,
}

pub open spec fn clamped(value: i32, max: i32) -> i32 {
    if value < 0 {
        0
    } else if value > max {
        max
    } else {
        value
    }
}

/// What can be shown of a value and its maximum: something where both are known and
/// there is a range at all.
pub open spec fn refreshed(value: Option<i32>, max: Option<i32>) -> Option<BrightnessState> {
    match (value, max) {
        (Some(value), Some(max)) => if max > 0 {
            Some(BrightnessState { value: clamped(value, max), max })
        } else {
            None
        },
        _ => None,
    }
}

impl Brightness {
    /// What is known before anything was reported.
    pub open spec fn initial() -> Brightness {
        Brightness { sender: None, value: None, max: None, shown: None }
    }

    /// Something is shown only where value and maximum are known, with that maximum,
    /// which is positive.
    pub open spec fn consistent(self) -> bool {
        &&& self.max matches Some(max) ==> max > 0
        &&& self.shown matches Some(shown) ==> self.value is Some && self.max == Some(shown.max)
    }

    /// What is known after a report.
    pub open spec fn after(self, event: BrightnessEvent) -> Brightness {
        match event {
            BrightnessEvent::Sender(sender) => Brightness {
                sender: Some(sender),
                value: None,
                max: None,
                shown: None,
            },
            BrightnessEvent::MaxDisplayBrightness(max) => if max > 0 {
                Brightness {
                    max: Some(max),
                    shown: refreshed(self.value, Some(max)),
                    ..self
                }
            } else {
                Brightness { value: None, max: None, shown: None, ..self }
            },
            BrightnessEvent::DisplayBrightness(value) => {
                let value = if value >= 0 {
                    Some(value)
                } else {
                    None
                };
                Brightness { value, shown: refreshed(value, self.max), ..self }
            },
        }
    }

    /// What is known once the user has chosen a brightness.
    pub open spec fn chosen(self, value: i32) -> Brightness {
        Brightness {
            value: Some(value),
            shown: match self.shown {
                Some(shown) => Some(BrightnessState { value, max: shown.max }),
                None => None,
            },
            ..self
        }
    }
}

/// What the daemon is asked after a report.
pub open spec fn questions(event: BrightnessEvent) -> Seq<BrightnessRequest> {
    match event {
        BrightnessEvent::Sender(_) => seq![
            BrightnessRequest::GetDisplayBrightness,
            BrightnessRequest::GetMaxDisplayBrightness,
        ],
        _ => Seq::empty(),
    }
}

impl Brightness {
    /// What is known before anything was reported.
    pub fn new() -> (r: Brightness)
        ensures
            r == Brightness::initial(),
    {
        Brightness { sender: None, value: None, max: None, shown: None }
    }

    /// Works out anew what can be shown.
    pub fn refresh_brightness(&mut self)
        ensures
            *final(self) == (Brightness {
                shown: refreshed(old(self).value, old(self).max),
                ..*old(self)
            }),
    {
        self.shown = match (self.value, self.max) {
            (Some(value), Some(max)) => {
                if max > 0 {
                    let value: i32 = if value < 0 {
                        0
                    } else if value > max {
                        max
                    } else {
                        value
                    };
                    Some(BrightnessState { value, max })
                } else {
                    None
                }
            },
            _ => None,
        };
    }

    /// Takes in a report, and gives what the daemon is asked in return.
    pub fn report(&mut self, event: BrightnessEvent) -> (r: Vec<BrightnessRequest>)
        ensures
            *final(self) == old(self).after(event),
            r@ == questions(event),
    {
        let mut requests: Vec<BrightnessRequest> = Vec::new();
        match event {
            BrightnessEvent::Sender(sender) => {
                self.shown = None;
                self.value = None;
                self.max = None;
                requests.push(BrightnessRequest::GetDisplayBrightness);
                requests.push(BrightnessRequest::GetMaxDisplayBrightness);
                self.sender = Some(sender);
            },
            BrightnessEvent::MaxDisplayBrightness(max) => {
                if max > 0 {
                    self.max = Some(max);
                    self.refresh_brightness();
                } else {
                    self.max = None;
                    self.value = None;
                    self.shown = None;
                }
            },
            BrightnessEvent::DisplayBrightness(value) => {
                self.value = if value >= 0 {
                    Some(value)
                } else {
                    None
                };
                self.refresh_brightness();
            },
        }
        assert(requests@ =~= questions(event));
        requests
    }

    /// Takes in the user's choice, and gives what the daemon is told of it.
    pub fn choose_value(&mut self, value: i32) -> (r: Vec<BrightnessRequest>)
        ensures
            *final(self) == old(self).chosen(value),
            r@ == (if old(self).sender is Some {
                seq![BrightnessRequest::SetDisplayBrightness(value)]
            } else {
                Seq::empty()
            }),
    {
        self.value = Some(value);
        self.shown = match self.shown {
            Some(shown) => Some(BrightnessState { value, max: shown.max }),
            None => None,
        };
        let mut requests: Vec<BrightnessRequest> = Vec::new();
        if self.sender.is_some() {
            requests.push(BrightnessRequest::SetDisplayBrightness(value));
        }
        requests
    }
}

/// How much of the range is in use, in whole percent points, between 0 and 100.
pub open spec fn percent_of(state: BrightnessState) -> int {
    let value = if state.value < 0 {
        0
    } else {
        state.value as int
    };
    let max = if state.max < 1 {
        1
    } else {
        state.max as int
    };
    if value * 100 / max > 100 {
        100
    } else {
        value * 100 / max
    }
}

/// The percentage is taken of a hundredfold value, which has to fit.
pub open spec fn has_percent(state: BrightnessState) -> bool {
    state.value * 100 <= i32::MAX
}

/// How much of the range is in use, in whole percent points.
pub fn brightness_percent(state: BrightnessState) -> (r: i32)
    requires
        has_percent(state),
    ensures
        r == percent_of(state),
        0 <= r <= 100,
{
    let value: i32 = if state.value < 0 {
        0
    } else {
        state.value
    };
    let max: i32 = if state.max < 1 {
        1
    } else {
        state.max
    };
    proof {
        vstd::arithmetic::div_mod::lemma_div_pos_is_pos(value * 100, max as int);
    }
    let percent: i32 = value * 100 / max;
    if percent > 100 {
        100
    } else {
        percent
    }
}

/// Reports keep the brightness consistent.
pub proof fn reports_stay_consistent(state: Brightness, event: BrightnessEvent)
    requires
        state.consistent(),
    ensures
        state.after(event).consistent(),
{
}

/// So do the user's choices.
pub proof fn choices_stay_consistent(state: Brightness, value: i32)
    requires
        state.consistent(),
    ensures
        state.chosen(value).consistent(),
{
}

/// A brightness that is shown lies in its range after every report.
pub proof fn reports_stay_in_range(state: Brightness, event: BrightnessEvent)
    requires
        state.shown matches Some(shown) ==> 0 <= shown.value <= shown.max,
    ensures
        state.after(event).shown matches Some(shown) ==> 0 <= shown.value <= shown.max,
{
}

/// A value and a positive maximum come in any order: once both were reported, the
/// brightness is shown, unless the value is negative.
pub proof fn value_and_maximum_come_in_any_order(state: Brightness, value: i32, max: i32)
    requires
        max > 0,
    ensures
        ({
            let value_first = state.after(BrightnessEvent::DisplayBrightness(value)).after(
                BrightnessEvent::MaxDisplayBrightness(max),
            );
            let max_first = state.after(BrightnessEvent::MaxDisplayBrightness(max)).after(
                BrightnessEvent::DisplayBrightness(value),
            );
            &&& value_first == max_first
            &&& value_first.shown == if value >= 0 {
                Some(BrightnessState { value: clamped(value, max), max })
            } else {
                None
            }
        }),
{
}

/// A display without a range is not shown until both value and maximum are reported
/// anew.
pub proof fn no_range_shows_nothing(state: Brightness, max: i32, later: BrightnessEvent)
    requires
        max <= 0,
    ensures
        state.after(BrightnessEvent::MaxDisplayBrightness(max)).shown is None,
        state.after(BrightnessEvent::MaxDisplayBrightness(max)).after(later).shown is None,
{
}

/// The percentage does not fall where the value grows. Where there is a range, it is
/// full just where the value has reached the maximum.
pub proof fn percent_follows_value(lower: BrightnessState, upper: BrightnessState)
    requires
        lower.max == upper.max,
        lower.value <= upper.value,
    ensures
        0 <= percent_of(lower) <= percent_of(upper) <= 100,
        upper.max > 0 ==> (percent_of(upper) == 100 <==> upper.value >= upper.max),
{
    let max = if upper.max < 1 {
        1
    } else {
        upper.max as int
    };
    let low = if lower.value < 0 {
        0
    } else {
        lower.value as int
    };
    let high = if upper.value < 0 {
        0
    } else {
        upper.value as int
    };
    vstd::arithmetic::div_mod::lemma_div_is_ordered(low * 100, high * 100, max);
    vstd::arithmetic::div_mod::lemma_div_pos_is_pos(low * 100, max);
    if high >= max {
        vstd::arithmetic::div_mod::lemma_div_is_ordered(100 * max, high * 100, max);
        vstd::arithmetic::div_mod::lemma_div_multiples_vanish(100, max);
        vstd::arithmetic::mul::lemma_mul_is_commutative(100, max);
    } else {
        vstd::arithmetic::div_mod::lemma_multiply_divide_lt(high * 100, max, 100);
    }
}

/// Taking a value into the range leaves one that lies in it, and moves any other to the
/// nearer end.
pub proof fn clamping_keeps_the_range(value: i32, max: i32)
    requires
        0 <= max,
    ensures
        0 <= clamped(value, max) <= max,
        0 <= value <= max ==> clamped(value, max) == value,
        value >= max ==> clamped(value, max) == max,
        value <= 0 ==> clamped(value, max) == 0,
{
}

/// Something can be shown just where value and maximum are known and the maximum is
/// positive. It then has that maximum, a value in the range is shown as it is, one over
/// it as the maximum, and a negative one as 0.
pub proof fn known_brightness_is_shown(value: i32, max: i32)
    ensures
        refreshed(None, Some(max)) is None,
        refreshed(Some(value), None) is None,
        refreshed(None, None) is None,
        max <= 0 ==> refreshed(Some(value), Some(max)) is None,
        max > 0 && 0 <= value <= max ==> refreshed(Some(value), Some(max)) == Some(
            BrightnessState { value, max },
        ),
        max > 0 && value > max ==> refreshed(Some(value), Some(max)) == Some(
            BrightnessState { value: max, max },
        ),
        max > 0 && value < 0 ==> refreshed(Some(value), Some(max)) == Some(
            BrightnessState { value: 0, max },
        ),
{
}

/// Once both were reported, a value in the range is shown as it is and one over it as the
/// maximum, in whichever order they came.
pub proof fn reported_brightness_is_shown(state: Brightness, value: i32, max: i32)
    requires
        max > 0,
        value >= 0,
    ensures
        ({
            let value_last = state.after(BrightnessEvent::MaxDisplayBrightness(max)).after(
                BrightnessEvent::DisplayBrightness(value),
            );
            let max_last = state.after(BrightnessEvent::DisplayBrightness(value)).after(
                BrightnessEvent::MaxDisplayBrightness(max),
            );
            let seen = BrightnessState {
                value: if value <= max {
                    value
                } else {
                    max
                },
                max,
            };
            &&& value_last.shown == Some(seen)
            &&& max_last.shown == Some(seen)
            &&& value_last.value == Some(value)
            &&& value_last.max == Some(max)
            &&& value_last.sender == state.sender
        }),
{
}

/// A reported value touches neither channel nor maximum, and is known unless it is
/// negative; it is shown just where it is known and so is a positive maximum.
pub proof fn reported_value_is_known(state: Brightness, value: i32)
    requires
        state.max matches Some(max) ==> max > 0,
    ensures
        ({
            let after = state.after(BrightnessEvent::DisplayBrightness(value));
            &&& after.sender == state.sender
            &&& after.max == state.max
            &&& value >= 0 ==> after.value == Some(value)
            &&& value < 0 ==> after.value is None
            &&& after.shown is Some <==> value >= 0 && state.max is Some
            &&& after.shown is Some ==> after.shown->0.max == state.max->0
        }),
{
}

/// A reported maximum touches neither channel nor, where it is positive, the value; one
/// that is not positive makes both unknown.
pub proof fn reported_maximum_is_known(state: Brightness, max: i32)
    ensures
        ({
            let after = state.after(BrightnessEvent::MaxDisplayBrightness(max));
            &&& after.sender == state.sender
            &&& max > 0 ==> after.max == Some(max) && after.value == state.value
            &&& max <= 0 ==> after.max is None && after.value is None && after.shown is None
            &&& after.shown is Some <==> max > 0 && state.value is Some
            &&& after.shown is Some ==> after.shown->0.max == max
        }),
{
}

/// A new channel forgets what was known of the display, and asks for value and maximum;
/// other reports ask for nothing.
pub proof fn new_channel_starts_afresh(state: Brightness, sender: u64, number: i32)
    ensures
        ({
            let after = state.after(BrightnessEvent::Sender(sender));
            &&& after.sender == Some(sender)
            &&& after.value is None
            &&& after.max is None
            &&& after.shown is None
        }),
        questions(BrightnessEvent::Sender(sender)).len() == 2,
        questions(BrightnessEvent::Sender(sender))[0] == BrightnessRequest::GetDisplayBrightness,
        questions(BrightnessEvent::Sender(sender))[1]
            == BrightnessRequest::GetMaxDisplayBrightness,
        questions(BrightnessEvent::DisplayBrightness(number)).len() == 0,
        questions(BrightnessEvent::MaxDisplayBrightness(number)).len() == 0,
{
}

/// A value that the user chose is known, and shown as it is where anything is shown; it
/// touches nothing else.
pub proof fn chosen_value_is_taken(state: Brightness, value: i32)
    ensures
        ({
            let after = state.chosen(value);
            &&& after.value == Some(value)
            &&& after.max == state.max
            &&& after.sender == state.sender
            &&& after.shown is Some <==> state.shown is Some
            &&& after.shown is Some ==> after.shown->0.value == value && after.shown->0.max
                == state.shown->0.max
        }),
{
}

/// In its range, a value is at least as many hundredths of the maximum as the percentage
/// says, and fewer than one more. Outside, the percentage is 0 below and 100 above, and
/// a display without a range counts as having a maximum of one.
pub proof fn percent_is_the_share(state: BrightnessState)
    ensures
        ({
            let percent = percent_of(state);
            &&& 0 <= percent <= 100
            &&& state.value <= 0 ==> percent == 0
            &&& state.max > 0 && state.value >= state.max ==> percent == 100
            &&& state.max <= 0 && state.value >= 1 ==> percent == 100
            &&& state.max > 0 && 0 <= state.value <= state.max ==> percent * state.max
                <= state.value * 100 < (percent + 1) * state.max
        }),
{
    percent_follows_value(state, state);
    if state.max > 0 && 0 <= state.value <= state.max {
        let value = state.value as int;
        let max = state.max as int;
        let whole = value * 100 / max;
        vstd::arithmetic::div_mod::lemma_fundamental_div_mod(value * 100, max);
        vstd::arithmetic::div_mod::lemma_div_is_ordered(value * 100, max * 100, max);
        vstd::arithmetic::div_mod::lemma_div_multiples_vanish(100, max);
        vstd::arithmetic::mul::lemma_mul_is_commutative(max, 100);
        assert(whole <= 100);
        vstd::arithmetic::mul::lemma_mul_is_commutative(max, whole);
        vstd::arithmetic::mul::lemma_mul_is_distributive_add_other_way(max, whole, 1);
    }
    if state.value <= 0 {
        vstd::arithmetic::div_mod::lemma_div_basics(
            if state.max < 1 {
                1
            } else {
                state.max as int
            },
        );
    }
}

} // verus!
