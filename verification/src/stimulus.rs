use vstd::prelude::*;
use vstd::string::StringExecFns;

verus! {

/// One of the four actions the remote device can perform.
#[derive(Clone, Copy, Debug, PartialEq, Eq, Structural)]
pub enum Stimulus {
    /// Deliver an electric shock; strength 1 or above.
    Shock,
    /// Sound a beep; strength 1 through 4.
    Beep,
    /// Vibrate; strength 1 or above.
    Vibration,
    /// Flash the LED; strength 1 through 4.
    Led,
}

impl Stimulus {
    /// The action's name as it appears in the endpoint path.
    pub open spec fn name_spec(self) -> Seq<char> {
        match self {
            Stimulus::Shock => "shock"@,
            Stimulus::Beep => "beep"@,
            Stimulus::Vibration => "vibration"@,
            Stimulus::Led => "led"@,
        }
    }

    /// The action's name as it appears in the endpoint path.
    pub fn name(&self) -> (r: &'static str)
        ensures
            r@ == self.name_spec(),
    {
        match self {
            Stimulus::Shock => "shock",
            Stimulus::Beep => "beep",
            Stimulus::Vibration => "vibration",
            Stimulus::Led => "led",
        }
    }

    /// The accepted strength range: `shock` and `vibration` take any strength
    /// of at least 1, while `beep` and `led` take 1 through 4 inclusive.
    /// Strength 0 is rejected for every action.
    pub open spec fn in_bounds_spec(self, strength: u8) -> bool {
        match self {
            Stimulus::Shock => strength >= 1,
            Stimulus::Beep => 1 <= strength && strength <= 4,
            Stimulus::Vibration => strength >= 1,
            Stimulus::Led => 1 <= strength && strength <= 4,
        }
    }

    /// Whether `strength` is in this action's accepted range.
    pub fn in_bounds(&self, strength: u8) -> (b: bool)
        ensures
            b == self.in_bounds_spec(strength),
    {
        match self {
            Stimulus::Shock => strength >= 1,
            Stimulus::Beep => 1 <= strength && strength <= 4,
            Stimulus::Vibration => strength >= 1,
            Stimulus::Led => 1 <= strength && strength <= 4,
        }
    }
}

/// The single decimal digit `d` as a one-character string.
pub open spec fn digit_seq(d: nat) -> Seq<char>
    recommends
        d < 10,
{
    if d == 0 {
        "0"@
    } else if d == 1 {
        "1"@
    } else if d == 2 {
        "2"@
    } else if d == 3 {
        "3"@
    } else if d == 4 {
        "4"@
    } else if d == 5 {
        "5"@
    } else if d == 6 {
        "6"@
    } else if d == 7 {
        "7"@
    } else if d == 8 {
        "8"@
    } else {
        "9"@
    }
}

/// The decimal form of `n`, most significant digit first, with no sign, no
/// leading zeros, and `"0"` for zero itself.
pub open spec fn decimal_seq(n: nat) -> Seq<char>
    decreases n,
{
    if n < 10 {
        digit_seq(n)
    } else {
        decimal_seq(n / 10) + digit_seq(n % 10)
    }
}

/// The single decimal digit `d` as a one-character string slice.
fn digit_str(d: u8) -> (r: &'static str)
    requires
        d < 10,
    ensures
        r@ == digit_seq(d as nat),
{
    if d == 0 {
        "0"
    } else if d == 1 {
        "1"
    } else if d == 2 {
        "2"
    } else if d == 3 {
        "3"
    } else if d == 4 {
        "4"
    } else if d == 5 {
        "5"
    } else if d == 6 {
        "6"
    } else if d == 7 {
        "7"
    } else if d == 8 {
        "8"
    } else {
        "9"
    }
}

/// The decimal form of `n` as a string.
pub fn decimal_str(n: u8) -> (r: String)
    ensures
        r@ == decimal_seq(n as nat),
    decreases n,
{
    if n < 10 {
        String::from_str(digit_str(n))
    } else {
        let mut s = decimal_str(n / 10);
        s.append(digit_str(n % 10));
        s
    }
}

/// Every character of the decimal form of `n` is a decimal digit.
pub proof fn lemma_decimal_seq_digits(n: nat)
    ensures
        forall|i: int|
            0 <= i < decimal_seq(n).len() ==> '0' <= #[trigger] decimal_seq(n)[i] && decimal_seq(
                n,
            )[i] <= '9',
    decreases n,
{
    reveal_strlit("0");
    reveal_strlit("1");
    reveal_strlit("2");
    reveal_strlit("3");
    reveal_strlit("4");
    reveal_strlit("5");
    reveal_strlit("6");
    reveal_strlit("7");
    reveal_strlit("8");
    reveal_strlit("9");
    if n >= 10 {
        lemma_decimal_seq_digits(n / 10);
        assert forall|i: int|
            0 <= i < decimal_seq(n).len() implies '0' <= #[trigger] decimal_seq(n)[i]
            && decimal_seq(n)[i] <= '9' by {
            if i < decimal_seq(n / 10).len() {
                assert(decimal_seq(n)[i] == decimal_seq(n / 10)[i]);
            } else {
                assert(decimal_seq(n)[i] == digit_seq(n % 10)[i - decimal_seq(n / 10).len()]);
            }
        }
    }
}

/// The endpoint URL gains no extra path segments: the action's name and the
/// decimal strength each contain no `/` separator, so the URL built from
/// them consists of exactly the fixed base's segments, one segment for the
/// action and one for the strength.
pub proof fn lemma_url_single_segments(stimulus: Stimulus, strength: u8)
    ensures
        forall|i: int|
            0 <= i < stimulus.name_spec().len() ==> #[trigger] stimulus.name_spec()[i] != '/',
        forall|i: int|
            0 <= i < decimal_seq(strength as nat).len() ==> #[trigger] decimal_seq(
                strength as nat,
            )[i] != '/',
{
    reveal_strlit("shock");
    reveal_strlit("beep");
    reveal_strlit("vibration");
    reveal_strlit("led");
    lemma_decimal_seq_digits(strength as nat);
}

/// The fully qualified endpoint for one action at one strength: the fixed
/// API base followed by the action's name and the decimal strength, each as
/// its own path segment.
pub open spec fn url_spec(name: Seq<char>, strength: u8) -> Seq<char> {
    "https://app.pavlok.com/api/v1/"@ + name + "/"@ + decimal_seq(strength as nat)
}

/// Build the endpoint URL for `stimulus` at `strength`.
pub fn build_url(stimulus: &Stimulus, strength: u8) -> (r: String)
    ensures
        r@ == url_spec(stimulus.name_spec(), strength),
{
    let mut url = String::from_str("https://app.pavlok.com/api/v1/");
    url.append(stimulus.name());
    url.append("/");
    let digits = decimal_str(strength);
    url.append(digits.as_str());
    url
}

} // verus!
