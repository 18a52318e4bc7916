//! Measured numbers. The library never computes with them: it orders them and
//! writes them down, so it holds their place in the order and their written forms.

use vstd::prelude::*;
use crate::text::same;

verus! {

/// The rank of one thousand.
pub const RANK_THOUSAND: i64 = 0x408F_4000_0000_0000;

/// The rank of infinity; the ranks above it belong to what is not a number.
pub const RANK_INFINITY: i64 = 0x7FF0_0000_0000_0000;

/// A 64-bit floating-point number.
#[derive(Debug, PartialEq, Eq)]
pub struct Real {
    /// The place in the total order of floating-point numbers: the bits of the number
    /// where its sign is plus; else the bits without the sign, negated, less one.
    pub rank: i64,
    /// The shortest decimal text that reads back as the number.
    pub text: String,
    /// The number with one digit after the point.
    pub fixed1: String,
    /// The number with two digits after the point.
    pub fixed2: String,
    /// The number with three digits after the point.
    pub fixed3: String,
    /// The number with four digits after the point.
    pub fixed4: String,
}

impl Clone for Real {
    fn clone(&self) -> (r: Self)
        ensures
            r == *self,
    {
        Real {
            rank: self.rank,
            text: self.text.clone(),
            fixed1: self.fixed1.clone(),
            fixed2: self.fixed2.clone(),
            fixed3: self.fixed3.clone(),
            fixed4: self.fixed4.clone(),
        }
    }
}

/// Zero.
impl Default for Real {
    fn default() -> (r: Self)
        ensures
            r.rank == 0,
            r.text@ == "0"@,
            r.fixed1@ == "0.0"@,
            r.fixed2@ == "0.00"@,
            r.fixed3@ == "0.000"@,
            r.fixed4@ == "0.0000"@,
    {
        Real {
            rank: 0,
            text: "0".to_owned(),
            fixed1: "0.0".to_owned(),
            fixed2: "0.00".to_owned(),
            fixed3: "0.000".to_owned(),
            fixed4: "0.0000".to_owned(),
        }
    }
}

/// The two numbers are one number, written alike.
pub open spec fn same_number(a: Real, b: Real) -> bool {
    &&& a.rank == b.rank
    &&& a.text@ == b.text@
    &&& a.fixed1@ == b.fixed1@
    &&& a.fixed2@ == b.fixed2@
    &&& a.fixed3@ == b.fixed3@
    &&& a.fixed4@ == b.fixed4@
}

impl Real {
    /// Whether the two numbers are one number, written alike.
    pub fn is_same(&self, other: &Real) -> (r: bool)
        ensures
            r == same_number(*self, *other),
    {
        self.rank == other.rank && same(self.text.as_str(), other.text.as_str()) && same(
            self.fixed1.as_str(),
            other.fixed1.as_str(),
        ) && same(self.fixed2.as_str(), other.fixed2.as_str()) && same(
            self.fixed3.as_str(),
            other.fixed3.as_str(),
        ) && same(self.fixed4.as_str(), other.fixed4.as_str())
    }

    /// The number is zero, of either sign.
    pub open spec fn is_zero(&self) -> bool {
        self.rank == 0 || self.rank == -1
    }

    /// Whether the number is zero, of either sign.
    pub fn vanishes(&self) -> (r: bool)
        ensures
            r == self.is_zero(),
    {
        self.rank == 0 || self.rank == -1
    }

    /// The number is one thousand or more, or minus one thousand or less.
    pub open spec fn reaches_thousand(&self) -> bool {
        ||| RANK_THOUSAND <= self.rank <= RANK_INFINITY
        ||| -RANK_INFINITY - 1 <= self.rank <= -RANK_THOUSAND - 1
    }

    /// Whether the number is one thousand or more, or minus one thousand or less.
    pub fn is_thousand_or_more(&self) -> (r: bool)
        ensures
            r == self.reaches_thousand(),
    {
        (RANK_THOUSAND <= self.rank && self.rank <= RANK_INFINITY) || (-RANK_INFINITY - 1
            <= self.rank && self.rank <= -RANK_THOUSAND - 1)
    }
}

/// The number, if there is one, with four digits after the point; else a dash.
pub open spec fn fixed4_or_dash(v: Option<Real>) -> Seq<char> {
    match v {
        Some(x) => x.fixed4@,
        None => "—"@,
    }
}

/// The number, if there is one, with four digits after the point; else a dash.
pub fn fmt_f64_opt(v: &Option<Real>) -> (r: String)
    ensures
        r@ == fixed4_or_dash(*v),
{
    match v {
        Some(x) => x.fixed4.clone(),
        None => "—".to_owned(),
    }
}

/// A number is shown with four digits behind the point, and a missing one as a dash.
pub proof fn a_missing_number_is_a_dash(x: Real)
    ensures
        fixed4_or_dash(Some(x)) == x.fixed4@,
        fixed4_or_dash(None) == seq!['\u{2014}'],
{
    reveal_strlit("—");
    assert("—"@ =~= seq!['\u{2014}']);
}

} // verus!
