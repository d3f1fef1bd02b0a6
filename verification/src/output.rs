//! The per-process output buffer: an append-only, ordered log of the lines a
//! managed process wrote to its standard streams, kept per identifier and
//! cleared each time that identifier is started again.

use crate::table::Table;
use vstd::prelude::*;

verus! {

/// Which stream a captured line came from. Lines the supervisor itself logs
/// (the terminal summary a monitor appends) carry `Stdout`.
#[derive(Clone, Copy, Debug, PartialEq, Eq, Structural)]
pub enum OutputOrigin {
    Stdout,
    Stderr,
}

/// One captured line: its text and the stream it came from. Insertion order
/// in the buffer is the order the lines were recorded.
#[derive(Debug)]
pub struct OutputLine {
    pub origin: OutputOrigin,
    pub text: String,
}

impl Clone for OutputLine {
    fn clone(&self) -> (r: Self)
        ensures
            r == *self,
    {
        OutputLine { origin: self.origin, text: self.text.clone() }
    }
}

/// The store of captured output, one ordered line sequence per identifier.
pub struct OutputStore {
    table: Table<Vec<OutputLine>>,
}

impl View for OutputStore {
    type V = Map<Seq<char>, Seq<OutputLine>>;

    closed spec fn view(&self) -> Map<Seq<char>, Seq<OutputLine>> {
        self.table@.map_values(|v: Vec<OutputLine>| v@)
    }
}

impl OutputStore {
    pub closed spec fn wf(&self) -> bool {
        self.table.wf()
    }

    pub fn new() -> (r: OutputStore)
        ensures
            r.wf(),
            r@ == Map::<Seq<char>, Seq<OutputLine>>::empty(),
    {
        let r = OutputStore { table: Table::new() };
        proof {
            assert(r@ =~= Map::<Seq<char>, Seq<OutputLine>>::empty());
        }
        r
    }

    /// Clear and re-create the buffer for `id`: afterwards it holds the empty
    /// sequence, whatever it held before.
    pub fn reset(&mut self, id: &String)
        requires
            old(self).wf(),
        ensures
            final(self).wf(),
            final(self)@ == old(self)@.insert(id@, Seq::<OutputLine>::empty()),
    {
        self.table.insert(id.clone(), Vec::new());
        proof {
            assert(self@ =~= old(self)@.insert(id@, Seq::<OutputLine>::empty()));
        }
    }

    /// Append one line to the buffer for `id`; ids with no buffer are left
    /// untouched (their output was never reset by a start).
    pub fn append(&mut self, id: &String, line: OutputLine)
        requires
            old(self).wf(),
        ensures
            final(self).wf(),
            old(self)@.contains_key(id@) ==> final(self)@ == old(self)@.insert(
                id@,
                old(self)@[id@].push(line),
            ),
            !old(self)@.contains_key(id@) ==> final(self)@ == old(self)@,
    {
        let found = match self.table.get(id) {
            Some(lines) => {
                let mut copy = lines.clone();
                copy.push(line);
                Some(copy)
            },
            None => None,
        };
        match found {
            Some(copy) => {
                self.table.insert(id.clone(), copy);
                proof {
                    assert(self@ =~= old(self)@.insert(id@, old(self)@[id@].push(line)));
                }
            },
            None => {
                proof {
                    assert(self@ =~= old(self)@);
                }
            },
        }
    }

    /// A borrow of the lines captured for `id`, if a buffer exists.
    pub fn get_lines<'a>(&'a self, id: &String) -> (r: Option<&'a Vec<OutputLine>>)
        requires
            self.wf(),
        ensures
            match r {
                Some(v) => self@.contains_key(id@) && v@ == self@[id@],
                None => !self@.contains_key(id@),
            },
    {
        self.table.get(id)
    }
}

} // verus!
