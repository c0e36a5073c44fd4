//! Appending an extension to a file name.

use vstd::prelude::*;

verus! {

/// `name` with a full stop and `extention` behind it, or `name` itself
/// where the extension is empty.
pub open spec fn with_ext(name: Seq<char>, extention: Seq<char>) -> Seq<char> {
    if extention.len() == 0 {
        name
    } else {
        name + seq!['.'] + extention
    }
}

/// Names that an extension can be appended to.
pub trait AddExtention {
    fn add_ext(&mut self, extention: &str);
}

impl AddExtention for String {
    /// Appends a full stop and the extension, unless the extension is
    /// empty.
    fn add_ext(&mut self, extention: &str)
        ensures
            final(self)@ == with_ext(old(self)@, extention@),
    {
        if !extention.is_empty() {
            proof {
                reveal_strlit(".");
            }
            self.append(".");
            self.append(extention);
            assert(self@ =~= old(self)@ + seq!['.'] + extention@);
        }
    }
}

} // verus!
