use crate::error::ImportError;
use crate::error::ImportErrorView;
use crate::text::chars_of;
use crate::text::is_word;
use vstd::prelude::*;

verus! {

/// Text files held in memory, each under its path.
#[derive(Debug)]
pub struct Files {
    entries: Vec<(String, String)>,
}

/// The text of the file at `path`: that of the last entry under this path.
pub open spec fn file_text(files: Seq<(Seq<char>, Seq<char>)>, path: Seq<char>) -> Option<
    Seq<char>,
>
    decreases files.len(),
{
    if files.len() == 0 {
        None
    } else if files.last().0 == path {
        Some(files.last().1)
    } else {
        file_text(files.drop_last(), path)
    }
}

/// What reading the file at `path` gives: its text, or an invalid path
/// where there is no such file.
pub open spec fn read_file(files: Seq<(Seq<char>, Seq<char>)>, path: Seq<char>) -> Result<
    Seq<char>,
    ImportErrorView,
> {
    match file_text(files, path) {
        Some(text) => Ok(text),
        None => Err(ImportErrorView::InvalidPath(path)),
    }
}

impl View for Files {
    type V = Seq<(Seq<char>, Seq<char>)>;

    closed spec fn view(&self) -> Seq<(Seq<char>, Seq<char>)> {
        Seq::new(self.entries@.len(), |i: int| (self.entries@[i].0@, self.entries@[i].1@))
    }
}

impl Files {
    /// No files.
    pub fn new() -> (r: Files)
        ensures
            r@ == Seq::<(Seq<char>, Seq<char>)>::empty(),
    {
        let r = Files { entries: Vec::new() };
        assert(r@ =~= Seq::<(Seq<char>, Seq<char>)>::empty());
        r
    }

    /// Puts a file under `path`, in place of any that was there.
    pub fn write(&mut self, path: &str, text: &str)
        ensures
            final(self)@ == old(self)@.push((path@, text@)),
            file_text(final(self)@, path@) == Some(text@),
    {
        self.entries.push((path.to_owned(), text.to_owned()));
        assert(self@ =~= old(self)@.push((path@, text@)));
    }

    /// Reads the file at `path`.
    pub fn read(&self, path: &str) -> (r: Result<&str, ImportError>)
        ensures
            match read_file(self@, path@) {
                Ok(text) => r is Ok && r->Ok_0@ == text,
                Err(e) => r is Err && r->Err_0@ == e,
            },
    {
        let key = chars_of(path);
        let mut i: usize = self.entries.len();
        assert(self@.take(i as int) =~= self@);
        while i > 0
            invariant
                i <= self.entries@.len(),
                key@ == path@,
                file_text(self@, path@) == file_text(self@.take(i as int), path@),
            decreases i,
        {
            let ghost upto = self@.take(i as int);
            assert(upto.drop_last() =~= self@.take(i - 1));
            assert(upto.last() == self@[i - 1]);
            i = i - 1;
            if is_word(key.as_slice(), self.entries[i].0.as_str()) {
                return Ok(self.entries[i].1.as_str());
            }
        }
        Err(ImportError::InvalidPath(path.to_owned()))
    }
}

} // verus!
