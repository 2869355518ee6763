use vstd::prelude::*;

use crate::error::chain_of;
use crate::error::Error;
use crate::kind::KindView;

verus! {

/// Iterator over the causal chain of an error, the error itself first, the
/// innermost cause last. Restartable: a fresh one can be had from
/// [`Error::iter`] at any time.
pub struct ErrorChainIter<'a>(
    /// The next error to yield, if any is left.
    pub Option<&'a Error>,
);

impl<'a> ErrorChainIter<'a> {
    /// The kinds still to be yielded, in order.
    pub open spec fn remaining(self) -> Seq<KindView> {
        match self.0 {
            Some(e) => e.chain(),
            None => Seq::<KindView>::empty(),
        }
    }

    /// Yields the next error of the chain and steps past it, or yields
    /// nothing once the chain is exhausted.
    pub fn next(&mut self) -> (r: Option<&'a Error>)
        ensures
            old(self).0 is None ==> (r is None && final(self).0 is None),
            old(self).0 matches Some(e) ==> (r == Some(e) && final(self).remaining() == chain_of(
                e.1.next_error,
            ) && final(self).remaining() == old(self).remaining().skip(1)),
    {
        match self.0 {
            Some(e) => {
                self.0 = e.cause();
                proof {
                    assert(e.chain().skip(1) =~= chain_of(e.1.next_error));
                }
                Some(e)
            },
            None => None,
        }
    }
}

} // verus!
