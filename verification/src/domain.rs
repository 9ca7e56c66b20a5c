//! Domain metadata attached to a pipeline run.

use vstd::prelude::*;
use vstd::string::*;

verus! {

/// Fiscal quarter that an earnings call concerns. Carries no processing
/// logic; it only identifies the call.
#[derive(Debug, Clone, Copy, PartialEq, Eq, Structural)]
pub enum Quarter {
    Q1,
    Q2,
    Q3,
    Q4,
}

impl Quarter {
    /// The canonical two-character label of the quarter.
    pub open spec fn label(self) -> Seq<char> {
        match self {
            Quarter::Q1 => "Q1"@,
            Quarter::Q2 => "Q2"@,
            Quarter::Q3 => "Q3"@,
            Quarter::Q4 => "Q4"@,
        }
    }

    /// Which quarter, if any, a string denotes: exactly two characters, a
    /// `q` or `Q` followed by a digit `1` through `4`.
    pub open spec fn parse_spec(s: Seq<char>) -> Option<Quarter> {
        if s.len() == 2 && (s[0] == 'q' || s[0] == 'Q') {
            if s[1] == '1' {
                Some(Quarter::Q1)
            } else if s[1] == '2' {
                Some(Quarter::Q2)
            } else if s[1] == '3' {
                Some(Quarter::Q3)
            } else if s[1] == '4' {
                Some(Quarter::Q4)
            } else {
                None
            }
        } else {
            None
        }
    }

    /// Renders the quarter as its canonical label.
    pub fn as_str(self) -> (r: &'static str)
        ensures
            r@ == self.label(),
    {
        match self {
            Quarter::Q1 => "Q1",
            Quarter::Q2 => "Q2",
            Quarter::Q3 => "Q3",
            Quarter::Q4 => "Q4",
        }
    }

    /// Parses a quarter label, case-insensitively: `q3` and `Q3` both denote
    /// the third quarter. Any other string is rejected with a message naming
    /// the offending input.
    pub fn from_str(s: &str) -> (r: Result<Quarter, String>)
        ensures
            Self::parse_spec(s@) matches Some(q) ==> (r matches Ok(p) && p == q),
            Self::parse_spec(s@) is None ==> (r matches Err(m) && m@ == "Invalid quarter: "@ + s@),
    {
        if s.unicode_len() == 2 {
            let c0 = s.get_char(0);
            let c1 = s.get_char(1);
            if c0 == 'q' || c0 == 'Q' {
                if c1 == '1' {
                    return Ok(Quarter::Q1);
                } else if c1 == '2' {
                    return Ok(Quarter::Q2);
                } else if c1 == '3' {
                    return Ok(Quarter::Q3);
                } else if c1 == '4' {
                    return Ok(Quarter::Q4);
                }
            }
        }
        let mut msg = "Invalid quarter: ".to_owned();
        msg.append(s);
        Err(msg)
    }
}

} // verus!
