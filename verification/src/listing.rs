//! What a directory holds, as far as the library's decisions need to know.
use vstd::prelude::*;

verus! {

broadcast use vstd::string::group_string_axioms;

/// One file found in a directory, with its length in bytes.
#[derive(Debug, Clone, PartialEq)]
pub struct FileEntry {
    pub name: String,
    pub len: u64,
}

/// The files found in a directory. The caller fills it by asking the file
/// system about the names the library looks for.
#[derive(Debug, Clone, PartialEq)]
pub struct DirListing {
    pub files: Vec<FileEntry>,
}

/// The length of the first file named `name` among `files`, or `None` when
/// there is none.
pub open spec fn size_in(files: Seq<FileEntry>, name: Seq<char>) -> Option<u64>
    decreases files.len(),
{
    if files.len() == 0 {
        None
    } else if files[0].name@ == name {
        Some(files[0].len)
    } else {
        size_in(files.drop_first(), name)
    }
}

impl DirListing {
    /// The length of the file named `name`, if the directory has one.
    pub open spec fn size_of(&self, name: Seq<char>) -> Option<u64> {
        size_in(self.files@, name)
    }

    /// The length of the file named `name`, if the directory has one.
    pub fn file_len(&self, name: &str) -> (r: Option<u64>)
        ensures
            r == self.size_of(name@),
    {
        let n = self.files.len();
        let mut i: usize = 0;
        assert(self.files@.subrange(0, n as int) =~= self.files@);
        while i < n
            invariant
                i <= n,
                n == self.files.len(),
                self.size_of(name@) == size_in(self.files@.subrange(i as int, n as int), name@),
            decreases n - i,
        {
            let ghost rest = self.files@.subrange(i as int, n as int);
            if same_text(self.files[i].name.as_str(), name) {
                assert(rest[0] == self.files@[i as int]);
                return Some(self.files[i].len);
            }
            assert(rest[0] == self.files@[i as int]);
            assert(rest.drop_first() =~= self.files@.subrange(i + 1, n as int));
            i = i + 1;
        }
        None
    }

    /// Whether the directory has a file named `name`.
    pub fn has_file(&self, name: &str) -> (r: bool)
        ensures
            r == self.size_of(name@) is Some,
    {
        self.file_len(name).is_some()
    }
}

/// Whether two texts are the same.
pub fn same_text(a: &str, b: &str) -> (r: bool)
    ensures
        r == (a@ == b@),
{
    let x = a.to_owned();
    let y = b.to_owned();
    x == y
}

/// A directory has a file exactly when one of its entries carries that name.
pub proof fn size_found_iff_named(files: Seq<FileEntry>, name: Seq<char>)
    ensures
        (size_in(files, name) is Some) <==> exists|k: int|
            0 <= k < files.len() && (#[trigger] files[k]).name@ == name,
    decreases files.len(),
{
    if files.len() > 0 {
        size_found_iff_named(files.drop_first(), name);
        if size_in(files, name) is Some && files[0].name@ != name {
            let k = choose|k: int|
                0 <= k < files.drop_first().len() && (#[trigger] files.drop_first()[k]).name@
                    == name;
            assert(files[k + 1] == files.drop_first()[k]);
        }
        if (exists|k: int| 0 <= k < files.len() && (#[trigger] files[k]).name@ == name)
            && files[0].name@ != name {
            let k = choose|k: int| 0 <= k < files.len() && (#[trigger] files[k]).name@ == name;
            assert(files.drop_first()[k - 1] == files[k]);
        }
    }
}

} // verus!
