use vstd::prelude::*;

use std::sync::Arc;

verus! {

/// `x` limited to `[0, len]`.
pub open spec fn clamp(x: int, len: int) -> int {
    if x < 0 {
        0
    } else if x > len {
        len
    } else {
        x
    }
}

/// Why a seek was refused.
#[derive(Clone, Copy, Debug, PartialEq, Eq, Structural)]
pub enum SeekError {
    /// `whence` was not 0, 1 or 2.
    BadWhence,
}

/// A shared, read-only byte buffer with a file-like cursor. The cursor may
/// stand anywhere, also before the start or past the end; reads clamp it to
/// the buffer.
pub struct ArcVec {
    data: Arc<Vec<u8>>,
    loc: i64,
}

impl ArcVec {
    /// The bytes of the buffer.
    pub closed spec fn bytes(&self) -> Seq<u8> {
        (*self.data)@
    }

    /// The cursor.
    pub closed spec fn position(&self) -> i64 {
        self.loc
    }

    /// The buffer's length fits the cursor's type.
    pub closed spec fn wf(&self) -> bool {
        (*self.data)@.len() <= i64::MAX
    }

    /// A buffer of `n` bytes, each the ASCII digit `0`, with the cursor at
    /// the start.
    pub fn new(n: usize) -> (r: ArcVec)
        requires
            n <= i64::MAX,
        ensures
            r.wf(),
            r.bytes() == Seq::new(n as nat, |i: int| 48u8),
            r.position() == 0,
    {
        let mut buf: Vec<u8> = Vec::new();
        let mut i: usize = 0;
        while i < n
            invariant
                i <= n,
                buf@ == Seq::new(i as nat, |j: int| 48u8),
            decreases n - i,
        {
            buf.push(48u8);
            i += 1;
            assert(buf@ =~= Seq::new(i as nat, |j: int| 48u8));
        }
        ArcVec { data: Arc::new(buf), loc: 0 }
    }

    /// The whole buffer.
    pub fn as_slice(&self) -> (r: &[u8])
        ensures
            r@ == self.bytes(),
    {
        self.data.as_slice()
    }

    /// Reads `n` bytes from the cursor and moves it on by `n`; with `n`
    /// negative or absent, reads to the end and moves the cursor there.
    pub fn read(&mut self, n: Option<i64>) -> (r: &[u8])
        requires
            old(self).wf(),
            n is Some && n->Some_0 >= 0 ==> old(self).position() + n->Some_0 <= i64::MAX,
        ensures
            final(self).wf(),
            final(self).bytes() == old(self).bytes(),
            final(self).position() == match n {
                Some(k) if k >= 0 => old(self).position() + k,
                _ => old(self).bytes().len() as int,
            },
            r@ == old(self).bytes().subrange(
                clamp(old(self).position() as int, old(self).bytes().len() as int),
                clamp(final(self).position() as int, old(self).bytes().len() as int),
            ),
    {
        let len = self.data.len() as i64;
        let here = if self.loc < 0 {
            0
        } else if self.loc > len {
            len
        } else {
            self.loc
        };
        self.loc = match n {
            Some(k) if k >= 0 => self.loc + k,
            _ => len,
        };
        let there = if self.loc < 0 {
            0
        } else if self.loc > len {
            len
        } else {
            self.loc
        };
        &self.data[here as usize..there as usize]
    }

    /// The cursor.
    pub fn tell(&self) -> (r: i64)
        ensures
            r == self.position(),
    {
        self.loc
    }

    /// Moves the cursor to `n` from the start (`whence` 0 or absent), from
    /// the cursor (1) or from the end (2), and returns it; any other
    /// `whence` is refused and leaves the cursor.
    pub fn seek(&mut self, n: i64, whence: Option<usize>) -> (r: Result<i64, SeekError>)
        requires
            old(self).wf(),
            whence == Some(1usize) ==> i64::MIN <= old(self).position() + n <= i64::MAX,
            whence == Some(2usize) ==> old(self).bytes().len() + n <= i64::MAX,
        ensures
            final(self).wf(),
            final(self).bytes() == old(self).bytes(),
            match whence {
                None | Some(0) => r == Ok::<i64, SeekError>(n) && final(self).position() == n,
                Some(1) => r == Ok::<i64, SeekError>(final(self).position())
                    && final(self).position() == old(self).position() + n,
                Some(2) => r == Ok::<i64, SeekError>(final(self).position())
                    && final(self).position() == old(self).bytes().len() + n,
                _ => r == Err::<i64, SeekError>(SeekError::BadWhence) && final(self).position()
                    == old(self).position(),
            },
    {
        match whence {
            None | Some(0) => self.loc = n,
            Some(1) => self.loc = self.loc + n,
            Some(2) => self.loc = self.data.len() as i64 + n,
            _ => return Err(SeekError::BadWhence),
        }
        Ok(self.loc)
    }
}

} // verus!
