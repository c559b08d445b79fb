use vstd::prelude::*;

verus! {

/// Progress of a long task: a message and a count out of a length. Readers
/// compute the fraction; a length of zero means nothing is known yet.
#[derive(Debug, Clone)]
pub struct Progress {
    pub msg: String,
    pub value: u64,
    pub length: u64,
}

impl Progress {
    /// No progress, no message.
    pub fn new() -> (r: Progress)
        ensures
            r.msg@.len() == 0,
            r.value == 0,
            r.length == 0,
    {
        Progress { msg: String::new(), value: 0, length: 0 }
    }

    pub fn set_msg(&mut self, msg: String)
        ensures
            final(self).msg == msg,
            final(self).value == old(self).value,
            final(self).length == old(self).length,
    {
        self.msg = msg;
    }

    pub fn set_length(&mut self, length: u64)
        ensures
            final(self).msg == old(self).msg,
            final(self).value == old(self).value,
            final(self).length == length,
    {
        self.length = length;
    }

    /// Advances by `val`.
    pub fn inc(&mut self, val: u64)
        requires
            old(self).value + val <= u64::MAX,
        ensures
            final(self).msg == old(self).msg,
            final(self).value == old(self).value + val,
            final(self).length == old(self).length,
    {
        self.value = self.value + val;
    }

    /// Advances by `val` and replaces the message.
    pub fn inc_with_msg(&mut self, val: u64, msg: String)
        requires
            old(self).value + val <= u64::MAX,
        ensures
            final(self).msg == msg,
            final(self).value == old(self).value + val,
            final(self).length == old(self).length,
    {
        self.value = self.value + val;
        self.msg = msg;
    }

    /// Back to no progress and no message.
    pub fn reset(&mut self)
        ensures
            final(self).msg@.len() == 0,
            final(self).value == 0,
            final(self).length == 0,
    {
        self.length = 0;
        self.value = 0;
        self.msg = String::new();
    }

    pub fn get_msg(&self) -> (r: String)
        ensures
            r@ == self.msg@,
    {
        self.msg.clone()
    }
}

} // verus!
