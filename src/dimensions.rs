//! Package measurements as the portal writes them: `21 x 30 x 40,5 cm`, `300 gram`.
//!
//! Reading stops at decimal text and a divisor to the base unit (metres,
//! kilograms); turning that into a number is left to the caller.
use vstd::prelude::*;

use crate::pattern::{capture_groups, regex_capture_groups};

verus! {

/// Three decimal numbers with a decimal comma, and a unit.
pub const DIMENSIONS_PATTERN: &'static str = "(^\\d+(?:,\\d+)?) x (\\d+(?:,\\d+)?) x (\\d+(?:,\\d+)?) (\\w+)$";

/// A decimal number with a decimal comma, and a unit.
pub const WEIGHT_PATTERN: &'static str = "(^\\d+(?:,\\d+)?) (\\w+)$";

/// `s` with its decimal commas written as points.
pub open spec fn decimal_point(s: Seq<char>) -> Seq<char> {
    s.map_values(|c: char| if c == ',' { '.' } else { c })
}

/// Writes the decimal commas of `s` as points.
pub fn to_decimal_point(s: &str) -> (r: String)
    ensures
        r@ == decimal_point(s@),
{
    let n = s.unicode_len();
    let mut out = String::new();
    let mut i: usize = 0;
    while i < n
        invariant
            i <= n,
            n == s@.len(),
            out@ == decimal_point(s@.subrange(0, i as int)),
        decreases n - i,
    {
        let ghost before = out@;
        if s.get_char(i) == ',' {
            let point: &str = ".";
            proof {
                reveal_strlit(".");
            }
            assert(point@.len() == 1 && point@[0] == '.');
            out.append(point);
        } else {
            let one = s.substring_char(i, i + 1);
            out.append(one);
        }
        assert(out@ =~= decimal_point(s@.subrange(0, i as int + 1)));
        i = i + 1;
    }
    assert(s@.subrange(0, n as int) =~= s@);
    out
}

/// How many of a length unit make a metre.
pub open spec fn length_divisor(unit: Seq<char>) -> Option<u32> {
    if unit == "cm"@ {
        Some(100)
    } else if unit == "m"@ {
        Some(1)
    } else {
        None
    }
}

/// How many of a weight unit make a kilogram.
pub open spec fn weight_divisor(unit: Seq<char>) -> Option<u32> {
    if unit == "gram"@ {
        Some(1000)
    } else if unit == "kg"@ {
        Some(1)
    } else {
        None
    }
}

/// Dimensions as decimal text; each divided by `divisor` gives metres.
#[derive(Clone, Debug, PartialEq, Eq)]
pub struct ScaledDimensions {
    pub height: String,
    pub width: String,
    pub depth: String,
    pub divisor: u32,
}

/// A weight as decimal text; divided by `divisor` it gives kilograms.
#[derive(Clone, Debug, PartialEq, Eq)]
pub struct ScaledWeight {
    pub weight: String,
    pub divisor: u32,
}

/// Reads dimensions written as `height x width x depth unit`, in `cm` or `m`.
pub fn parse_dimensions(value: &str) -> (r: Result<ScaledDimensions, String>)
    ensures
        match regex_capture_groups(DIMENSIONS_PATTERN@, value@) {
            Some(g) => if g.len() < 4 {
                r is Err
            } else {
                match length_divisor(g[3]) {
                    Some(d) => r matches Ok(x) && x.height@ == decimal_point(g[0]) && x.width@
                        == decimal_point(g[1]) && x.depth@ == decimal_point(g[2]) && x.divisor == d,
                    None => r matches Err(m) && m@ == "Unsupported unit"@,
                }
            },
            None => r matches Err(m) && m@ == "Invalid formatted dimensions, not matched"@,
        },
{
    let g = match capture_groups(DIMENSIONS_PATTERN, value) {
        Some(g) => g,
        None => return Err(String::from_str("Invalid formatted dimensions, not matched")),
    };
    if g.len() < 4 {
        return Err(String::from_str("Invalid formatted dimensions, not matched"));
    }
    let divisor: u32 = if g[3] == String::from_str("cm") {
        100
    } else if g[3] == String::from_str("m") {
        1
    } else {
        return Err(String::from_str("Unsupported unit"));
    };
    Ok(
        ScaledDimensions {
            height: to_decimal_point(g[0].as_str()),
            width: to_decimal_point(g[1].as_str()),
            depth: to_decimal_point(g[2].as_str()),
            divisor,
        },
    )
}

/// Reads a weight written as `number unit`, in `gram` or `kg`.
pub fn parse_weight(value: &str) -> (r: Result<ScaledWeight, String>)
    ensures
        match regex_capture_groups(WEIGHT_PATTERN@, value@) {
            Some(g) => if g.len() < 2 {
                r is Err
            } else {
                match weight_divisor(g[1]) {
                    Some(d) => r matches Ok(x) && x.weight@ == decimal_point(g[0]) && x.divisor
                        == d,
                    None => r matches Err(m) && m@ == "Unsupported unit"@,
                }
            },
            None => r matches Err(m) && m@ == "Malformed weight"@,
        },
{
    let g = match capture_groups(WEIGHT_PATTERN, value) {
        Some(g) => g,
        None => return Err(String::from_str("Malformed weight")),
    };
    if g.len() < 2 {
        return Err(String::from_str("Malformed weight"));
    }
    let divisor: u32 = if g[1] == String::from_str("gram") {
        1000
    } else if g[1] == String::from_str("kg") {
        1
    } else {
        return Err(String::from_str("Unsupported unit"));
    };
    Ok(ScaledWeight { weight: to_decimal_point(g[0].as_str()), divisor })
}

} // verus!
