//! Temperature units and the conversions from the gauge's decikelvin readings.
use vstd::prelude::*;

verus! {

/// Division that rounds toward zero, as Rust's `/` does on signed integers.
pub open spec fn div_toward_zero(a: int, b: int) -> int
    recommends
        b > 0,
{
    if a >= 0 {
        a / b
    } else {
        -((-a) / b)
    }
}

/// Centi-degrees Celsius for a reading in decikelvin: `10 * dk - 27315`.
pub open spec fn spec_centi_celsius(decikelvin: u16) -> int {
    10 * decikelvin - 27_315
}

/// Centi-degrees Fahrenheit for a reading in decikelvin: the Celsius value
/// times nine, divided by five rounding toward zero, plus 3200.
pub open spec fn spec_centi_fahrenheit(decikelvin: u16) -> int {
    div_toward_zero(9 * spec_centi_celsius(decikelvin), 5) + 3_200
}

/// A temperature in centi-degrees Celsius (0.01 C units).
///
/// Celsius and Fahrenheit values are distinct types and cannot be interchanged.
#[derive(Debug, Clone, Copy, PartialEq, Eq, Structural, PartialOrd, Ord)]
pub struct CentiCelsius(i32);

impl View for CentiCelsius {
    type V = int;

    closed spec fn view(&self) -> int {
        self.0 as int
    }
}

impl CentiCelsius {
    /// Return the temperature in centi-degrees Celsius (0.01 C units).
    pub fn centi_degrees(self) -> (centi: i32)
        ensures
            centi == self@,
    {
        self.0
    }
}

/// A temperature in centi-degrees Fahrenheit (0.01 F units).
#[derive(Debug, Clone, Copy, PartialEq, Eq, Structural, PartialOrd, Ord)]
pub struct CentiFahrenheit(i32);

impl View for CentiFahrenheit {
    type V = int;

    closed spec fn view(&self) -> int {
        self.0 as int
    }
}

impl CentiFahrenheit {
    /// Return the temperature in centi-degrees Fahrenheit (0.01 F units).
    pub fn centi_degrees(self) -> (centi: i32)
        ensures
            centi == self@,
    {
        self.0
    }
}

/// Converts a gauge reading in decikelvin (0.1 K units) to centi-degrees Celsius.
pub fn decikelvin_to_centi_celsius(decikelvin: u16) -> (celsius: CentiCelsius)
    ensures
        celsius@ == spec_centi_celsius(decikelvin),
{
    CentiCelsius(decikelvin as i32 * 10 - 27_315)
}

/// Converts a gauge reading in decikelvin (0.1 K units) to centi-degrees
/// Fahrenheit, through the Celsius value: times nine, divided by five
/// (rounding toward zero), plus 32 degrees.
pub fn decikelvin_to_centi_fahrenheit(decikelvin: u16) -> (fahrenheit: CentiFahrenheit)
    ensures
        fahrenheit@ == spec_centi_fahrenheit(decikelvin),
{
    let celsius = decikelvin_to_centi_celsius(decikelvin).centi_degrees();
    CentiFahrenheit(celsius * 9 / 5 + 3_200)
}

/// A warmer reading gives a strictly higher Celsius value.
pub proof fn lemma_celsius_strictly_increasing(a: u16, b: u16)
    requires
        a < b,
    ensures
        spec_centi_celsius(a) < spec_centi_celsius(b),
{
}

/// A warmer reading never gives a lower Fahrenheit value.
pub proof fn lemma_fahrenheit_monotonic(a: u16, b: u16)
    requires
        a <= b,
    ensures
        spec_centi_fahrenheit(a) <= spec_centi_fahrenheit(b),
{
    let x = 9 * spec_centi_celsius(a);
    let y = 9 * spec_centi_celsius(b);
    assert(x <= y);
    if x >= 0 {
        assert(x / 5 <= y / 5) by (nonlinear_arith)
            requires
                0 <= x <= y,
        ;
    } else if y >= 0 {
        assert(-((-x) / 5) <= 0) by (nonlinear_arith)
            requires
                x < 0,
        ;
        assert(0 <= y / 5) by (nonlinear_arith)
            requires
                y >= 0,
        ;
    } else {
        assert((-y) / 5 <= (-x) / 5) by (nonlinear_arith)
            requires
                0 < -y <= -x,
        ;
    }
}

/// Fahrenheit is Celsius times 9/5 plus 32 degrees, rounded toward zero:
/// with `c` the Celsius and `q` the Fahrenheit value less 3200 (all in
/// hundredths), `5 * q` is `9 * c` cut toward zero to a multiple of five.
pub proof fn lemma_fahrenheit_from_celsius(decikelvin: u16)
    ensures
        ({
            let c = 10 * decikelvin - 27_315;
            let q = spec_centi_fahrenheit(decikelvin) - 3_200;
            &&& spec_centi_celsius(decikelvin) == c
            &&& c >= 0 ==> 5 * q <= 9 * c < 5 * q + 5
            &&& c < 0 ==> 5 * q - 5 < 9 * c <= 5 * q
        }),
{
    let c = 10 * decikelvin - 27_315;
    let x = 9 * c;
    if x >= 0 {
        assert(5 * (x / 5) <= x < 5 * (x / 5) + 5) by (nonlinear_arith)
            requires
                x >= 0,
        ;
    } else {
        let y = -x;
        assert(5 * (y / 5) <= y < 5 * (y / 5) + 5) by (nonlinear_arith)
            requires
                y > 0,
        ;
    }
}

} // verus!
