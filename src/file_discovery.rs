use vstd::prelude::*;

use crate::marker::{admits, Marker};
use crate::timestamp::{later, Timestamp};

verus! {

/// A regular file chosen for copying.
#[derive(Clone, Debug, PartialEq, Eq, PartialOrd, Ord)]
pub struct FileInfo {
    pub path: String,
    pub name: String,
}

/// One entry met while walking a directory tree.
#[derive(Clone, Debug)]
pub struct WalkEntry {
    /// The entry's path.
    pub path: String,
    /// The final component of the path.
    pub name: String,
    /// The entry is a directory.
    pub is_dir: bool,
    /// The entry's modification time, `None` where it could not be read.
    pub modified: Option<Timestamp>,
}

/// An entry that the walk could not read.
#[derive(Clone, Debug)]
pub struct WalkFailure {
    pub reason: String,
}

/// What the walk yields, in the order it met the entries.
pub type WalkItem = Result<WalkEntry, WalkFailure>;

/// Discovery stopped on an entry the walk could not read.
#[derive(Clone, Debug)]
pub enum DiscoverError {
    FetchEntry { source: WalkFailure },
}

impl View for FileInfo {
    type V = (Seq<char>, Seq<char>);

    open spec fn view(&self) -> (Seq<char>, Seq<char>) {
        (self.path@, self.name@)
    }
}

/// The record of a walked entry, as path and name.
pub open spec fn info_of(e: WalkEntry) -> (Seq<char>, Seq<char>) {
    (e.path@, e.name@)
}

/// An entry the walk must keep going through: a directory always, a file when
/// it passes the cutoff.
pub open spec fn kept(m: Marker, e: WalkEntry) -> bool {
    e.is_dir || admits(m, e.modified)
}

/// The entry is a file that discovery returns.
pub open spec fn chosen(m: Marker, e: WalkEntry) -> bool {
    !e.is_dir && admits(m, e.modified)
}

/// The files chosen from a walk that met no failure, in walk order.
pub open spec fn chosen_files(walk: Seq<WalkItem>, m: Marker) -> Seq<(Seq<char>, Seq<char>)>
    decreases walk.len(),
{
    if walk.len() == 0 {
        Seq::empty()
    } else {
        let rest = chosen_files(walk.drop_last(), m);
        match walk.last() {
            Ok(e) => if chosen(m, e) {
                rest.push(info_of(e))
            } else {
                rest
            },
            Err(_) => rest,
        }
    }
}

/// Every regular file of a walk, in walk order.
pub open spec fn all_files(walk: Seq<WalkItem>) -> Seq<(Seq<char>, Seq<char>)>
    decreases walk.len(),
{
    if walk.len() == 0 {
        Seq::empty()
    } else {
        let rest = all_files(walk.drop_last());
        match walk.last() {
            Ok(e) => if !e.is_dir {
                rest.push(info_of(e))
            } else {
                rest
            },
            Err(_) => rest,
        }
    }
}

/// The walk met a failure somewhere.
pub open spec fn walk_failed(walk: Seq<WalkItem>) -> bool {
    exists|i: int| 0 <= i < walk.len() && (#[trigger] walk[i]) is Err
}

/// The walk met a failure at `i` and none before it.
pub open spec fn first_failure(walk: Seq<WalkItem>, i: int) -> bool {
    &&& 0 <= i < walk.len()
    &&& walk[i] is Err
    &&& forall|j: int| 0 <= j < i ==> (#[trigger] walk[j]) is Ok
}

/// Without a cutoff, discovery chooses every regular file of the walk, whatever
/// its modification time.
pub proof fn lemma_no_cutoff_chooses_every_file(walk: Seq<WalkItem>, m: Marker)
    requires
        m.cutoff_time is None,
    ensures
        chosen_files(walk, m) == all_files(walk),
    decreases walk.len(),
{
    if walk.len() > 0 {
        lemma_no_cutoff_chooses_every_file(walk.drop_last(), m);
    }
}

/// Entry `i` of the walk is a file whose record is `r`.
pub open spec fn file_at(walk: Seq<WalkItem>, i: int, r: (Seq<char>, Seq<char>)) -> bool {
    &&& 0 <= i < walk.len()
    &&& walk[i] is Ok
    &&& !walk[i]->Ok_0.is_dir
    &&& info_of(walk[i]->Ok_0) == r
}

/// Record `k` of the chosen files is that of a walked file that passes the cutoff.
pub open spec fn chosen_from_admitted(walk: Seq<WalkItem>, m: Marker, k: int) -> bool {
    exists|i: int| #[trigger] file_at(walk, i, chosen_files(walk, m)[k]) && admits(m, walk[i]->Ok_0.modified)
}

/// Record `k` of the chosen files is that of a walked file whose modification
/// time is known and strictly after `t`.
pub open spec fn chosen_from_newer(walk: Seq<WalkItem>, m: Marker, t: Timestamp, k: int) -> bool {
    exists|i: int|
        #[trigger] file_at(walk, i, chosen_files(walk, m)[k]) && walk[i]->Ok_0.modified is Some
            && later(walk[i]->Ok_0.modified->Some_0, t)
}

/// Each chosen record is that of a walked entry which is not a directory and
/// passes the marker's cutoff.
pub proof fn lemma_chosen_are_admitted_files(walk: Seq<WalkItem>, m: Marker)
    ensures
        forall|k: int| 0 <= k < chosen_files(walk, m).len() ==> #[trigger] chosen_from_admitted(walk, m, k),
    decreases walk.len(),
{
    if walk.len() > 0 {
        let prev = walk.drop_last();
        lemma_chosen_are_admitted_files(prev, m);
        assert forall|k: int| 0 <= k < chosen_files(walk, m).len() implies #[trigger] chosen_from_admitted(walk, m, k) by {
            if k < chosen_files(prev, m).len() {
                assert(chosen_from_admitted(prev, m, k));
                let i = choose|i: int|
                    #[trigger] file_at(prev, i, chosen_files(prev, m)[k]) && admits(m, prev[i]->Ok_0.modified);
                assert(walk[i] == prev[i]);
                assert(file_at(walk, i, chosen_files(walk, m)[k]));
            } else {
                assert(walk[walk.len() - 1] == walk.last());
                assert(file_at(walk, walk.len() - 1, chosen_files(walk, m)[k]));
            }
        }
    }
}

/// With a cutoff `t`, every chosen record is that of a regular file whose
/// modification time is known and strictly after `t`; so no file modified at
/// or before `t`, and no directory, is ever chosen.
pub proof fn lemma_cutoff_chooses_only_newer_files(walk: Seq<WalkItem>, m: Marker, t: Timestamp)
    requires
        m.cutoff_time == Some(t),
    ensures
        forall|k: int| 0 <= k < chosen_files(walk, m).len() ==> #[trigger] chosen_from_newer(walk, m, t, k),
{
    lemma_chosen_are_admitted_files(walk, m);
    assert forall|k: int| 0 <= k < chosen_files(walk, m).len() implies #[trigger] chosen_from_newer(walk, m, t, k) by {
        assert(chosen_from_admitted(walk, m, k));
        let i = choose|i: int| #[trigger] file_at(walk, i, chosen_files(walk, m)[k]) && admits(m, walk[i]->Ok_0.modified);
        assert(file_at(walk, i, chosen_files(walk, m)[k]));
    }
}

/// Every walked entry that is a file passing the cutoff is chosen.
pub proof fn lemma_admitted_files_are_chosen(walk: Seq<WalkItem>, m: Marker)
    ensures
        forall|i: int|
            0 <= i < walk.len() && (#[trigger] walk[i]) is Ok && chosen(m, walk[i]->Ok_0)
                ==> chosen_files(walk, m).contains(info_of(walk[i]->Ok_0)),
    decreases walk.len(),
{
    if walk.len() > 0 {
        let prev = walk.drop_last();
        lemma_admitted_files_are_chosen(prev, m);
        assert forall|i: int|
            0 <= i < walk.len() && (#[trigger] walk[i]) is Ok && chosen(m, walk[i]->Ok_0)
                implies chosen_files(walk, m).contains(info_of(walk[i]->Ok_0)) by {
            let cur = chosen_files(walk, m);
            if i < walk.len() - 1 {
                assert(walk[i] == prev[i]);
                let past = chosen_files(prev, m);
                let k = choose|k: int| 0 <= k < past.len() && past[k] == info_of(prev[i]->Ok_0);
                assert(cur[k] == past[k]);
            } else {
                assert(walk[i] == walk.last());
                assert(cur[cur.len() - 1] == info_of(walk[i]->Ok_0));
            }
        }
    }
}

/// Finds the regular files under a directory that are newer than a marker's cutoff.
pub struct FileDiscoverer {
    search_dir: String,
    marker: Marker,
}

impl FileDiscoverer {
    pub fn new(search_dir: String, marker: Marker) -> (r: FileDiscoverer)
        ensures
            r.search_dir()@ == search_dir@,
            r.marker() == marker,
    {
        FileDiscoverer { search_dir, marker }
    }

    pub closed spec fn search_dir(&self) -> String {
        self.search_dir
    }

    pub closed spec fn marker(&self) -> Marker {
        self.marker
    }

    /// The directory to walk.
    pub fn search_dir_path(&self) -> (r: &str)
        ensures
            r@ == self.search_dir()@,
    {
        self.search_dir.as_str()
    }

    /// Whether the walk keeps an entry: a directory is always descended into,
    /// whatever its own modification time; a file is kept when it is newer than
    /// the cutoff.
    pub fn keeps(&self, is_dir: bool, modified: Option<Timestamp>) -> (r: bool)
        ensures
            r == (is_dir || admits(self.marker(), modified)),
            is_dir ==> r,
    {
        is_dir || self.marker.admits(modified)
    }

    /// The files of a walk of the search directory that are newer than the
    /// cutoff, in walk order. The first entry the walk could not read ends
    /// discovery with that failure; no partial list is returned.
    pub fn discover(&self, walk: &Vec<WalkItem>) -> (r: Result<Vec<FileInfo>, DiscoverError>)
        ensures
            r is Err <==> walk_failed(walk@),
            r matches Err(DiscoverError::FetchEntry { source }) ==> exists|i: int|
                first_failure(walk@, i) && walk@[i]->Err_0.reason@ == source.reason@,
            r matches Ok(files) ==> files@.map_values(|f: FileInfo| f@) == chosen_files(
                walk@,
                self.marker(),
            ),
    {
        let mut out: Vec<FileInfo> = Vec::new();
        let mut i: usize = 0;
        while i < walk.len()
            invariant
                0 <= i <= walk@.len(),
                forall|j: int| 0 <= j < i ==> (#[trigger] walk@[j]) is Ok,
                out@.map_values(|f: FileInfo| f@) == chosen_files(walk@.subrange(0, i as int), self.marker()),
            decreases walk@.len() - i,
        {
            proof {
                assert(walk@.subrange(0, i + 1).drop_last() == walk@.subrange(0, i as int));
            }
            match &walk[i] {
                Err(failure) => {
                    proof {
                        assert(first_failure(walk@, i as int));
                        assert(walk@[i as int] is Err);
                    }
                    let source = WalkFailure { reason: failure.reason.clone() };
                    return Err(DiscoverError::FetchEntry { source });
                },
                Ok(entry) => {
                    if !entry.is_dir && self.marker.admits(entry.modified) {
                        let info = FileInfo { path: entry.path.clone(), name: entry.name.clone() };
                        out.push(info);
                        proof {
                            assert(out@.map_values(|f: FileInfo| f@) =~= chosen_files(
                                walk@.subrange(0, i + 1),
                                self.marker(),
                            ));
                        }
                    }
                },
            }
            i = i + 1;
        }
        proof {
            assert(walk@.subrange(0, walk@.len() as int) == walk@);
        }
        Ok(out)
    }
}

} // verus!
