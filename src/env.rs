//! The argument list the system hands a process: a 32-bit count followed by
//! that many NUL-terminated arguments.
use vstd::prelude::*;

verus! {

/// Whether `k` is the end of the argument that starts at `start` in
/// `data`: no NUL before it, and a NUL or the end of the data at it.
pub open spec fn argument_end(data: Seq<u8>, start: int, k: int) -> bool {
    &&& start <= k <= data.len()
    &&& forall|j: int| start <= j < k ==> data[j] != 0
    &&& (k == data.len() || data[k] == 0)
}

/// The arguments not yet read.
#[derive(Debug)]
pub struct SystemArgList {
    data: Vec<u8>,
    pos: usize,
    length: usize,
}

impl SystemArgList {
    pub closed spec fn data_spec(&self) -> Seq<u8> {
        self.data@
    }

    pub closed spec fn pos_spec(&self) -> int {
        self.pos as int
    }

    /// Number of arguments left.
    pub closed spec fn remaining_spec(&self) -> nat {
        self.length as nat
    }

    pub open spec fn wf(&self) -> bool {
        self.pos_spec() <= self.data_spec().len()
    }

    /// Reads the count (little-endian) from the first four bytes; the
    /// arguments follow. `None` when there are not four bytes.
    pub fn new(data: Vec<u8>) -> (r: Option<SystemArgList>)
        ensures
            data@.len() >= 4 <==> r is Some,
            r matches Some(l) ==> l.wf() && l.data_spec() == data@ && l.pos_spec() == 4
                && l.remaining_spec() == data@[0] as int + data@[1] as int * 0x100 + data@[2] as int
                * 0x1_0000 + data@[3] as int * 0x100_0000,
    {
        if data.len() < 4 {
            return None;
        }
        let length = data[0] as usize + data[1] as usize * 0x100 + data[2] as usize * 0x1_0000
            + data[3] as usize * 0x100_0000;
        Some(SystemArgList { data, pos: 4, length })
    }

    pub fn len(&self) -> (r: usize)
        ensures
            r == self.remaining_spec(),
    {
        self.length
    }

    /// The next argument, without its NUL; `None` once the count is used
    /// up. An argument without a NUL runs to the end of the data.
    pub fn next(&mut self) -> (r: Option<Vec<u8>>)
        requires
            old(self).wf(),
        ensures
            final(self).wf(),
            final(self).data_spec() == old(self).data_spec(),
            old(self).remaining_spec() == 0 ==> r is None && *final(self) == *old(self),
            old(self).remaining_spec() > 0 ==> (r matches Some(arg) && final(self).remaining_spec()
                == old(self).remaining_spec() - 1 && argument_end(
                old(self).data_spec(),
                old(self).pos_spec(),
                old(self).pos_spec() + arg@.len(),
            ) && arg@ == old(self).data_spec().subrange(
                old(self).pos_spec(),
                old(self).pos_spec() + arg@.len(),
            ) && final(self).pos_spec() == if old(self).pos_spec() + arg@.len() < old(
                self,
            ).data_spec().len() {
                old(self).pos_spec() + arg@.len() + 1
            } else {
                old(self).data_spec().len() as int
            }),
    {
        if self.length == 0 {
            return None;
        }
        let mut arg: Vec<u8> = Vec::new();
        let mut k = self.pos;
        while k < self.data.len() && self.data[k] != 0
            invariant
                self.pos <= k <= self.data@.len(),
                forall|j: int| self.pos <= j < k ==> self.data@[j] != 0,
                arg@ == self.data@.subrange(self.pos as int, k as int),
            decreases self.data@.len() - k,
        {
            arg.push(self.data[k]);
            assert(arg@ =~= self.data@.subrange(self.pos as int, k + 1));
            k = k + 1;
        }
        self.pos = if k < self.data.len() { k + 1 } else { k };
        self.length = self.length - 1;
        Some(arg)
    }
}

} // verus!
