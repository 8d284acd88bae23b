//! The open buffers the editor has handed to the server.

use vstd::prelude::*;

verus! {

/// Whether `files` holds a buffer for `path`.
pub open spec fn has_buffer(files: Seq<(Seq<char>, Seq<char>)>, path: Seq<char>) -> bool {
    exists|i: int| 0 <= i < files.len() && #[trigger] files[i].0 == path
}

/// Server state shared by the request handlers: the open buffers, most
/// recently opened last.
pub struct Context {
    files: Vec<(String, String)>,
}

impl View for Context {
    type V = Seq<(Seq<char>, Seq<char>)>;

    closed spec fn view(&self) -> Seq<(Seq<char>, Seq<char>)> {
        self.files@.map_values(|f: (String, String)| (f.0@, f.1@))
    }
}

impl Context {
    /// A context with no open buffers.
    pub fn new() -> (r: Context)
        ensures
            r@ == Seq::<(Seq<char>, Seq<char>)>::empty(),
    {
        Context { files: Vec::new() }
    }

    /// Records `text` as the current content of the buffer for `path`.
    pub fn open_buffer(&mut self, path: String, text: String)
        ensures
            final(self)@ == old(self)@.push((path@, text@)),
    {
        self.files.push((path, text));
        assert(self@ =~= old(self)@.push((path@, text@)));
    }

    /// The current content of the buffer for `path`: the text it was most
    /// recently opened with, or `None` if it was never opened.
    pub fn buffer(&self, path: &String) -> (r: Option<&String>)
        ensures
            match r {
                Some(t) => exists|i: int|
                    0 <= i < self@.len() && self@[i] == (path@, t@) && forall|j: int|
                        i < j < self@.len() ==> #[trigger] self@[j].0 != path@,
                None => !has_buffer(self@, path@),
            },
    {
        let mut i: usize = self.files.len();
        while i > 0
            invariant
                i <= self@.len(),
                self@.len() == self.files@.len(),
                forall|j: int| i <= j < self@.len() ==> #[trigger] self@[j].0 != path@,
            decreases i,
        {
            i = i - 1;
            if self.files[i].0 == *path {
                assert(self@[i as int] == (path@, self.files@[i as int].1@));
                return Some(&self.files[i].1);
            }
        }
        assert forall|j: int| 0 <= j < self@.len() implies #[trigger] self@[j].0 != path@ by {}
        None
    }
}

} // verus!
