use vstd::prelude::*;

verus! {

/// One decoded line of child-process output, with no trailing terminator.
/// Created when a line terminator is discovered (or the source ends) and
/// consumed exactly once by the output aggregator.
#[derive(Debug)]
pub struct OutputMessage(String);

impl View for OutputMessage {
    type V = Seq<char>;

    closed spec fn view(&self) -> Seq<char> {
        self.0@
    }
}

impl OutputMessage {
    pub fn new(line: String) -> (m: OutputMessage)
        ensures
            m@ == line@,
    {
        OutputMessage(line)
    }

    pub fn text(&self) -> (r: &String)
        ensures
            r@ == self@,
    {
        &self.0
    }

    pub fn into_text(self) -> (r: String)
        ensures
            r@ == self@,
    {
        self.0
    }
}

} // verus!
