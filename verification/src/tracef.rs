//! Marking where a piece of work begins and ends.
//!
//! A marker is made where the work begins and let go where it ends. It
//! holds what the work is called, and gives the line to print at each end.

use vstd::prelude::*;
use vstd::string::*;

verus! {

/// The marker of one piece of work.
pub struct Raii {
    target: String,
    tips: String,
}

/// A line of a marker: the target, the tips and `word`, a space between
/// each two.
pub open spec fn spec_line(target: Seq<char>, tips: Seq<char>, word: Seq<char>) -> Seq<char> {
    target.push(' ') + tips.push(' ') + word
}

impl Raii {
    /// What the work belongs to.
    pub closed spec fn spec_target(&self) -> Seq<char> {
        self.target@
    }

    /// What the work is.
    pub closed spec fn spec_tips(&self) -> Seq<char> {
        self.tips@
    }

    /// The marker of the work `tips` within `target`.
    pub fn new(target: &str, tips: &str) -> (ra: Raii)
        ensures
            ra.spec_target() == target@,
            ra.spec_tips() == tips@,
    {
        let tips = tips.to_owned();
        let target = target.to_owned();
        Raii { target, tips }
    }

    fn line(&self, word: &str) -> (line: String)
        ensures
            line@ == spec_line(self.spec_target(), self.spec_tips(), word@),
    {
        proof {
            reveal_strlit(" ");
        }
        let mut line = self.target.clone();
        line.append(" ");
        line.append(self.tips.as_str());
        line.append(" ");
        line.append(word);
        assert(line@ =~= spec_line(self.spec_target(), self.spec_tips(), word@));
        line
    }

    /// The line to print where the work begins.
    pub fn begin(&self) -> (line: String)
        ensures
            line@ == spec_line(self.spec_target(), self.spec_tips(), "begin"@),
    {
        self.line("begin")
    }

    /// The line to print where the work ends.
    pub fn end(&self) -> (line: String)
        ensures
            line@ == spec_line(self.spec_target(), self.spec_tips(), "end"@),
    {
        self.line("end")
    }
}

} // verus!
