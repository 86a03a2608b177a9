use vstd::prelude::*;

verus! {

/// The balance indicator of a strip: -100 is hard left, +100 hard right.
#[derive(Debug, Default, Clone, PartialEq, Eq, Hash)]
pub struct Pan {
    pub balance: i64,
}

impl Pan {
    /// Sets the balance shown.
    pub fn balance(&mut self, value: i64)
        ensures
            final(self).balance == value,
    {
        self.balance = value;
    }
}

} // verus!
