use vstd::prelude::*;
use vstd::string::StringExecFns;

use crate::engine::TerminalGridEngine;

verus! {

/// Decimal digits of `n`, most significant first, without leading zeros.
pub open spec fn decimal(n: nat) -> Seq<char>
    decreases n,
{
    if n < 10 {
        seq![digit_char(n)]
    } else {
        decimal(n / 10).push(digit_char(n % 10))
    }
}

/// The ASCII digit for `d < 10`.
pub open spec fn digit_char(d: nat) -> char {
    ((d + 0x30) as u32) as char
}

/// Text of the cursor readout: `cursor: (col,row)`.
pub open spec fn cursor_label_text(col: nat, row: nat) -> Seq<char> {
    "cursor: ("@ + decimal(col) + ","@ + decimal(row) + ")"@
}

/// Relies on `usize::to_string` (std's `Display` for integers): the
/// decimal digits of `n`, with no sign, padding or leading zeros.
#[verifier::external_body]
fn decimal_string(n: usize) -> (r: String)
    ensures
        r@ == decimal(n as nat),
{
    n.to_string()
}

impl<H> TerminalGridEngine<H> {
    /// Text for the cursor readout of the host's display.
    pub fn cursor_label(&self) -> (r: String)
        requires
            self.wf(),
        ensures
            r@ == cursor_label_text(self.cursor_at().0 as nat, self.cursor_at().1 as nat),
    {
        let (col, row) = self.cursor_position();
        proof {
            reveal_strlit("cursor: (");
            reveal_strlit(",");
            reveal_strlit(")");
        }
        let mut s = String::from_str("cursor: (");
        s.append(decimal_string(col).as_str());
        s.append(",");
        s.append(decimal_string(row).as_str());
        s.append(")");
        s
    }
}

} // verus!
