//! A minimal open/closed file object.
//!
//! The file is a two-state machine: reading is allowed only while the
//! state is `Open`, and `open` / `close` return the transitioned value
//! rather than flipping a shared flag.

use vstd::prelude::*;
use vstd::string::StringExecFns;

verus! {

/// The two states a `File` can be in.
#[derive(Debug, PartialEq, Eq, Structural, Clone, Copy)]
pub enum Filestate {
    Open,
    Closed,
}

impl Filestate {
    /// The state's display name, "OPEN" or "CLOSED".
    pub open spec fn label_spec(self) -> Seq<char> {
        match self {
            Filestate::Open => "OPEN"@,
            Filestate::Closed => "CLOSED"@,
        }
    }

    /// The state's display name, for callers that print the file.
    pub fn label(&self) -> (s: &'static str)
        ensures
            s@ == self.label_spec(),
    {
        match self {
            Filestate::Open => "OPEN",
            Filestate::Closed => "CLOSED",
        }
    }
}

/// A named byte buffer guarded by an open/closed state.
#[derive(Debug)]
pub struct File {
    pub name: String,
    pub data: Vec<u8>,
    pub state: Filestate,
}

impl File {
    /// A fresh file: the given name, no data, and closed.
    pub fn new(name: &str) -> (f: File)
        ensures
            f.name@ == name@,
            f.data@ == Seq::<u8>::empty(),
            f.state == Filestate::Closed,
    {
        File { name: name.to_owned(), data: Vec::new(), state: Filestate::Closed }
    }

    /// A fresh file holding `data`: still closed, so not yet readable.
    pub fn new_with_data(name: &str, data: Vec<u8>) -> (f: File)
        ensures
            f.name@ == name@,
            f.data@ == data@,
            f.state == Filestate::Closed,
    {
        let mut f = File::new(name);
        f.data = data;
        f
    }

    /// Append the file's contents to `save_to` and return how many bytes
    /// were read.  An open file always succeeds; a closed file leaves
    /// `save_to` untouched and returns the descriptive error.
    pub fn read(&self, save_to: &mut Vec<u8>) -> (r: Result<usize, String>)
        ensures
            self.state == Filestate::Open ==> (r matches Ok(n) && n == self.data@.len()
                && final(save_to)@ == old(save_to)@ + self.data@),
            self.state != Filestate::Open ==> (r matches Err(e) && e@
                == "File must be open for reading"@ && final(save_to)@ == old(save_to)@),
    {
        if self.state != Filestate::Open {
            return Err(String::from_str("File must be open for reading"));
        }
        let read_length = self.data.len();
        save_to.reserve(read_length);
        let mut i: usize = 0;
        while i < read_length
            invariant
                i <= read_length,
                read_length == self.data@.len(),
                save_to@ == old(save_to)@ + self.data@.take(i as int),
            decreases read_length - i,
        {
            save_to.push(self.data[i]);
            proof {
                assert(old(save_to)@ + self.data@.take(i + 1 as int) =~= (old(save_to)@
                    + self.data@.take(i as int)).push(self.data@[i as int]));
            }
            i += 1;
        }
        proof {
            assert(self.data@.take(read_length as int) =~= self.data@);
        }
        Ok(read_length)
    }

    /// The file's display line, "<name (STATE)>".
    pub fn label(&self) -> (s: String)
        ensures
            s@ == "<"@ + self.name@ + " ("@ + self.state.label_spec() + ")>"@,
    {
        let mut s = String::from_str("<");
        s.append(self.name.as_str());
        s.append(" (");
        s.append(self.state.label());
        s.append(")>");
        s
    }
}

/// Transition a file to the open state; everything else is kept.  The
/// transition itself cannot fail.
pub fn open(f: File) -> (r: Result<File, String>)
    ensures
        r matches Ok(g) && g.name@ == f.name@ && g.data@ == f.data@ && g.state
            == Filestate::Open,
{
    let mut f = f;
    f.state = Filestate::Open;
    Ok(f)
}

/// Transition a file to the closed state; everything else is kept.  The
/// transition itself cannot fail.
pub fn close(f: File) -> (r: Result<File, String>)
    ensures
        r matches Ok(g) && g.name@ == f.name@ && g.data@ == f.data@ && g.state
            == Filestate::Closed,
{
    let mut f = f;
    f.state = Filestate::Closed;
    Ok(f)
}

} // verus!
