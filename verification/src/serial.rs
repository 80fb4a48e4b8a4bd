use vstd::prelude::*;

verus! {

/// The bytes that a line of input stands for: its characters in order,
/// without carriage returns and line feeds, each cut down to its low eight
/// bits.
pub open spec fn line_bytes(line: Seq<char>) -> Seq<u8>
    decreases line.len(),
{
    if line.len() == 0 {
        Seq::empty()
    } else if line.last() == '\r' || line.last() == '\n' {
        line_bytes(line.drop_last())
    } else {
        line_bytes(line.drop_last()).push(line.last() as u8)
    }
}

/// The input side of a serial line: the bytes of the last line that have
/// not been read yet.
pub struct SerialBuffer {
    pending: Vec<u8>,
}

impl View for SerialBuffer {
    type V = Seq<u8>;

    /// The bytes that wait, the next to be read first.
    closed spec fn view(&self) -> Seq<u8> {
        self.pending@
    }
}

impl SerialBuffer {
    /// A buffer in which nothing waits.
    pub fn new() -> (buffer: Self)
        ensures
            buffer@.len() == 0,
    {
        SerialBuffer { pending: Vec::new() }
    }

    /// Whether nothing waits.
    pub fn is_empty(&self) -> (empty: bool)
        ensures
            empty == (self@.len() == 0),
    {
        self.pending.len() == 0
    }

    /// Replaces what waits by the bytes of a line.
    pub fn refill(&mut self, line: &Vec<char>)
        ensures
            final(self)@ == line_bytes(line@),
    {
        let mut bytes: Vec<u8> = Vec::new();
        let mut i: usize = 0;
        while i < line.len()
            invariant
                i <= line@.len(),
                bytes@ == line_bytes(line@.take(i as int)),
            decreases line@.len() - i,
        {
            let c = line[i];
            assert(line@.take(i + 1).drop_last() == line@.take(i as int));
            if c != '\r' && c != '\n' {
                bytes.push(c as u8);
            }
            i += 1;
        }
        assert(line@.take(i as int) == line@);
        self.pending = bytes;
    }

    /// Takes the next byte, if one waits.
    pub fn take(&mut self) -> (byte: Option<u8>)
        ensures
            old(self)@.len() == 0 ==> byte is None && final(self)@ == old(self)@,
            old(self)@.len() > 0 ==> byte == Some(old(self)@[0]) && final(self)@ == old(
                self,
            )@.drop_first(),
    {
        if self.pending.len() == 0 {
            None
        } else {
            let byte = self.pending.remove(0);
            assert(self.pending@ =~= old(self).pending@.drop_first());
            Some(byte)
        }
    }
}

} // verus!
