//! Model of the application cache directory: whether it exists and
//! which file names it holds.
//!
//! The surrounding application keeps this model in step with the real
//! directory; the decisions and the user-visible messages are made
//! here.  Clearing a missing directory reports so and does not create
//! it; clearing an existing one empties it but leaves it in place.

use vstd::prelude::*;

verus! {

/// A file of this name is in the listing.
pub open spec fn has_file(files: Seq<String>, name: Seq<char>) -> bool {
    exists|i: int| 0 <= i < files.len() && files[i]@ == name
}

/// The cache directory: present or not, and the names of the files it
/// holds.
pub struct CacheDir {
    pub present: bool,
    pub files: Vec<String>,
}

impl CacheDir {
    /// A directory that is not there holds nothing.
    pub open spec fn wf(self) -> bool {
        !self.present ==> self.files@.len() == 0
    }

    /// The model of a missing directory.
    pub fn absent() -> (r: CacheDir)
        ensures
            r.wf(),
            !r.present,
            r.files@.len() == 0,
    {
        CacheDir { present: false, files: Vec::new() }
    }

    /// The model of an existing directory with the given listing.
    pub fn from_listing(files: Vec<String>) -> (r: CacheDir)
        ensures
            r.wf(),
            r.present,
            r.files == files,
    {
        CacheDir { present: true, files }
    }

    /// Clear the cache: an existing directory is emptied and stays in
    /// place, a missing one is left missing; the message says which
    /// of the two happened.
    pub fn clear(&mut self) -> (msg: String)
        requires
            old(self).wf(),
        ensures
            final(self).wf(),
            !old(self).present ==> *final(self) == *old(self) && msg@
                == "Cache directory does not exist"@,
            old(self).present ==> final(self).present && final(self).files@.len() == 0 && msg@
                == "Cache cleared successfully"@,
    {
        if self.present {
            self.files = Vec::new();
            String::from_str("Cache cleared successfully")
        } else {
            String::from_str("Cache directory does not exist")
        }
    }

    /// Record that the directory was created (recursively) if absent:
    /// afterwards it is present, and whatever it held it still holds.
    pub fn note_created(&mut self)
        requires
            old(self).wf(),
        ensures
            final(self).wf(),
            final(self).present,
            final(self).files == old(self).files,
    {
        self.present = true;
    }

    /// Record that a file of this name was written: afterwards the
    /// directory holds that name, and exactly the names it held
    /// before besides — writing the same name twice leaves the
    /// listing as it was, which is what makes a repeated cycle
    /// idempotent on the cache.
    pub fn note_saved(&mut self, filename: String)
        requires
            old(self).wf(),
            old(self).present,
        ensures
            final(self).wf(),
            final(self).present,
            has_file(final(self).files@, filename@),
            forall|n: Seq<char>|
                #[trigger] has_file(final(self).files@, n) <==> (has_file(old(self).files@, n)
                    || n == filename@),
    {
        let len = self.files.len();
        let mut i: usize = 0;
        while i < len
            invariant
                len == self.files@.len(),
                i <= len,
                forall|p: int| 0 <= p < i ==> self.files@[p]@ != filename@,
                old(self).present,
                self.present == old(self).present,
                self.files == old(self).files,
            decreases len - i,
        {
            if self.files[i] == filename {
                proof {
                    assert(self.files@[i as int]@ == filename@);
                    assert(has_file(self.files@, filename@));
                    assert(forall|n: Seq<char>|
                        has_file(self.files@, n) <==> (has_file(old(self).files@, n) || n
                            == filename@));
                }
                return ;
            }
            i = i + 1;
        }
        self.files.push(filename);
        proof {
            assert(self.files@[self.files@.len() - 1]@ == filename@);
            assert(has_file(self.files@, filename@));
            assert forall|n: Seq<char>| #[trigger]
                has_file(self.files@, n) implies (has_file(old(self).files@, n) || n
                == filename@) by {
                let i2 = choose|i2: int| 0 <= i2 < self.files@.len() && self.files@[i2]@ == n;
                if i2 < old(self).files@.len() {
                    assert(old(self).files@[i2]@ == n);
                }
            }
            assert forall|n: Seq<char>| (has_file(old(self).files@, n) || n
                == filename@) implies #[trigger] has_file(self.files@, n) by {
                if has_file(old(self).files@, n) {
                    let i2 = choose|i2: int|
                        0 <= i2 < old(self).files@.len() && old(self).files@[i2]@ == n;
                    assert(self.files@[i2]@ == n);
                }
            }
        }
    }
}

} // verus!
