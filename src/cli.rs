use vstd::prelude::*;

verus! {

/// Where a run reads from, writes to, and keeps its marker.
#[derive(Clone, Debug)]
pub struct Args {
    /// The directory that holds the marker file.
    pub marker_dir: String,
    /// The marker file's name within `marker_dir`.
    pub marker_file_name: String,
    /// The directory tree to watch for new files.
    pub watch_dir: String,
    /// The directory that new files are copied into.
    pub output_dir: String,
    /// Report what would be copied, and change nothing.
    pub dry_run: bool,
}

/// `name` appended to the path `dir`, as a path join does it: an absolute
/// `name` replaces `dir`; otherwise one `/` separates the two unless `dir` is
/// empty or already ends in one.
pub open spec fn joined(dir: Seq<char>, name: Seq<char>) -> Seq<char> {
    if name.len() > 0 && name[0] == '/' {
        name
    } else if dir.len() == 0 || dir.last() == '/' {
        dir + name
    } else {
        dir + seq!['/'] + name
    }
}

/// Joins `name` onto the path `dir`.
pub fn join_path(dir: &str, name: &str) -> (r: String)
    ensures
        r@ == joined(dir@, name@),
{
    let name_len = name.unicode_len();
    let dir_len = dir.unicode_len();
    if name_len > 0 && name.get_char(0) == '/' {
        String::from_str(name)
    } else if dir_len == 0 || dir.get_char(dir_len - 1) == '/' {
        String::from_str(dir).concat(name)
    } else {
        let r = String::from_str(dir).concat("/").concat(name);
        proof {
            reveal_strlit("/");
            assert(dir@.last() == dir@[dir@.len() - 1]);
        }
        r
    }
}

impl Args {
    /// The marker file: its name joined onto the marker directory.
    pub fn marker_path(&self) -> (r: String)
        ensures
            r@ == joined(self.marker_dir@, self.marker_file_name@),
    {
        join_path(self.marker_dir.as_str(), self.marker_file_name.as_str())
    }

    /// Where a file named `name` is copied to: the name joined onto the output directory.
    pub fn output_path(&self, name: &str) -> (r: String)
        ensures
            r@ == joined(self.output_dir@, name@),
    {
        join_path(self.output_dir.as_str(), name)
    }
}

} // verus!
