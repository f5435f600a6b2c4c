//! The output buffer that the nodes print into.
use vstd::prelude::*;
use vstd::string::StringExecFns;

use super::print::{fs, nl};

verus! {

/// Collects printed text; `minify` drops the formatting spaces and line breaks.
pub struct Emitter {
    pub minify: bool,
    pub out: String,
}

impl Emitter {
    /// An emitter with nothing written yet.
    pub fn new(minify: bool) -> (r: Emitter)
        ensures
            r.minify == minify,
            r.out@ == Seq::<char>::empty(),
    {
        Emitter { minify, out: String::new() }
    }

    /// Appends `s`.
    pub fn write(&mut self, s: &str)
        ensures
            final(self).minify == old(self).minify,
            final(self).out@ == old(self).out@ + s@,
    {
        self.out.append(s);
    }

    /// Appends the text of `s`.
    pub fn write_string(&mut self, s: &String)
        ensures
            final(self).minify == old(self).minify,
            final(self).out@ == old(self).out@ + s@,
    {
        self.out.append(s.as_str());
    }

    /// A space that only formatting asks for.
    pub fn formatting_space(&mut self)
        ensures
            final(self).minify == old(self).minify,
            final(self).out@ == old(self).out@ + fs(old(self).minify),
    {
        reveal(fs);
        if !self.minify {
            self.out.append(" ");
        } else {
            assert(self.out@ =~= self.out@ + fs(self.minify));
        }
    }

    /// A line break that only formatting asks for.
    pub fn formatting_newline(&mut self)
        ensures
            final(self).minify == old(self).minify,
            final(self).out@ == old(self).out@ + nl(old(self).minify),
    {
        reveal(nl);
        if !self.minify {
            self.out.append("\n");
        } else {
            assert(self.out@ =~= self.out@ + nl(self.minify));
        }
    }
}

} // verus!
