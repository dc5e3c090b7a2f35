//! The opening hours of the library: where they are asked for.

use vstd::prelude::*;
use crate::text::{decimal, i64_to_string, signed_decimal, u64_to_string};

verus! {

/// A number in at least two digits.
pub open spec fn padded(n: u32) -> Seq<char> {
    if n < 10 {
        "0"@ + decimal(n as nat)
    } else {
        decimal(n as nat)
    }
}

/// Where the hours of the week of a day are asked for.
pub open spec fn hours_address(year: i32, month: u32, day: u32) -> Seq<char> {
    "https://api3.libcal.com/api_hours_grid.php?iid=4052&lid=0&format=json&date="@ + signed_decimal(year as int)
        + "-"@ + padded(month) + "-"@ + padded(day)
}

/// Writes a number in at least two digits.
fn pad(n: u32) -> (text: String)
    ensures
        text@ == padded(n),
{
    let digits = u64_to_string(n as u64);
    if n < 10 {
        let mut text = String::from_str("0");
        text.append(digits.as_str());
        text
    } else {
        digits
    }
}

/// Where the hours of the week of a day are asked for.
pub fn hours_url(year: i32, month: u32, day: u32) -> (url: String)
    ensures
        url@ == hours_address(year, month, day),
{
    let mut url = String::from_str("https://api3.libcal.com/api_hours_grid.php?iid=4052&lid=0&format=json&date=");
    let y = i64_to_string(year as i64);
    url.append(y.as_str());
    url.append("-");
    let m = pad(month);
    url.append(m.as_str());
    url.append("-");
    let d = pad(day);
    url.append(d.as_str());
    assert(url@ =~= hours_address(year, month, day));
    url
}

} // verus!
