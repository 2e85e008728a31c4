//! The artifact store.
//!
//! Policy and reference-data artifacts live in a `Disk`: a map from path
//! to text content.  The medium is fallible — a write may be interrupted
//! and leave a torn file — which `Disk` models with an explicit fault
//! plan: the k-th write from now fails, leaving unspecified content at
//! the target path.  `set` is the crash-consistent write: it backs the
//! old content up, writes, and restores on failure, so that a file is
//! never left torn whatever single fault the medium springs.

use vstd::prelude::*;
use vstd::string::StringExecFns;
use crate::Error;

verus! {

/// The map denoted by an entry list; later entries shadow earlier ones.
pub closed spec fn map_of(l: Seq<(String, String)>) -> Map<Seq<char>, Seq<char>>
    decreases l.len(),
{
    if l.len() == 0 {
        Map::empty()
    } else {
        map_of(l.drop_last()).insert(l.last().0@, l.last().1@)
    }
}

/// One step of the fault plan: `Some(0)` fires and clears; a later
/// fault comes one write closer.
pub open spec fn fault_step(f: Option<u64>) -> Option<u64> {
    match f {
        Some(k) => if k == 0 {
            None
        } else {
            Some((k - 1) as u64)
        },
        None => None,
    }
}

/// A fallible storage medium holding text files.
pub struct Disk {
    files: Vec<(String, String)>,
    fault: Option<u64>,
}

impl Disk {
    /// The files currently held, as a map from path to content.
    pub closed spec fn contents(&self) -> Map<Seq<char>, Seq<char>> {
        map_of(self.files@)
    }

    /// Which upcoming write fails: `Some(k)` means the k-th write from
    /// now is interrupted.
    pub closed spec fn fault_plan(&self) -> Option<u64> {
        self.fault
    }

    /// An empty, healthy disk.
    pub fn new() -> (r: Disk)
        ensures
            r.contents() == Map::<Seq<char>, Seq<char>>::empty(),
            r.fault_plan() is None,
    {
        Disk { files: Vec::new(), fault: None }
    }

    /// Arranges for the `k`-th write from now to be interrupted.
    pub fn plan_write_fault(&mut self, k: u64)
        ensures
            final(self).contents() == old(self).contents(),
            final(self).fault_plan() == Some(k),
    {
        self.fault = Some(k);
    }

    /// Whether a file exists at `path`.
    pub fn has_file(&self, path: &str) -> (r: bool)
        ensures
            r == self.contents().contains_key(path@),
    {
        let p = String::from_str(path);
        let n = self.files.len();
        let mut i = n;
        proof {
            assert(self.files@.take(n as int) =~= self.files@);
        }
        while i > 0
            invariant
                i <= n,
                n == self.files@.len(),
                p@ == path@,
                self.contents().contains_key(path@) == map_of(
                    self.files@.take(i as int),
                ).contains_key(path@),
            decreases i,
        {
            i = i - 1;
            proof {
                assert(self.files@.take(i + 1).drop_last() =~= self.files@.take(i as int));
                assert(self.files@.take(i + 1).last() == self.files@[i as int]);
            }
            if self.files[i].0 == p {
                return true;
            }
        }
        proof {
            assert(self.files@.take(0) =~= Seq::<(String, String)>::empty());
        }
        false
    }

    /// Reads the file at `path`; `NotFound` when absent.  Reading never
    /// consumes the fault plan.
    pub fn read(&self, path: &str) -> (r: Result<String, Error>)
        ensures
            match r {
                Ok(c) => self.contents().contains_key(path@) && self.contents()[path@] == c@,
                Err(e) => !self.contents().contains_key(path@) && e == Error::NotFound,
            },
    {
        let p = String::from_str(path);
        let n = self.files.len();
        let mut i = n;
        proof {
            assert(self.files@.take(n as int) =~= self.files@);
        }
        while i > 0
            invariant
                i <= n,
                n == self.files@.len(),
                p@ == path@,
                self.contents().get(path@) == map_of(self.files@.take(i as int)).get(path@),
            decreases i,
        {
            i = i - 1;
            proof {
                assert(self.files@.take(i + 1).drop_last() =~= self.files@.take(i as int));
                assert(self.files@.take(i + 1).last() == self.files@[i as int]);
            }
            if self.files[i].0 == p {
                return Ok(self.files[i].1.clone());
            }
        }
        proof {
            assert(self.files@.take(0) =~= Seq::<(String, String)>::empty());
        }
        Err(Error::NotFound)
    }

    /// Writes `content` to `path`.  When the fault plan fires, the
    /// write is interrupted: the path is left with unspecified content
    /// and the write reports `IoError`.
    pub fn write(&mut self, path: &str, content: &str) -> (r: Result<(), Error>)
        ensures
            final(self).fault_plan() == fault_step(old(self).fault_plan()),
            r is Err <==> old(self).fault_plan() == Some(0u64),
            r is Err ==> r == Err::<(), Error>(Error::IoError),
            r is Ok ==> final(self).contents() == old(self).contents().insert(path@, content@),
            // an interrupted write leaves unspecified content at the path
            r is Err ==> final(self).contents().dom() == old(self).contents().dom().insert(path@)
                && (forall|k: Seq<char>|
                k != path@ ==> #[trigger] final(self).contents().get(k) == old(
                    self,
                ).contents().get(k)),
    {
        let fail_now: bool = match self.fault {
            Some(k) => {
                if k == 0 {
                    self.fault = None;
                    true
                } else {
                    self.fault = Some(k - 1);
                    false
                }
            },
            None => false,
        };
        let ghost pre = self.files@;
        let p = String::from_str(path);
        if fail_now {
            let torn = String::new();
            self.files.push((p, torn));
            proof {
                assert(self.files@.drop_last() =~= pre);
                assert(map_of(self.files@) == map_of(pre).insert(path@, Seq::<char>::empty()));
                assert(map_of(self.files@).dom() =~= map_of(pre).dom().insert(path@));
            }
            Err(Error::IoError)
        } else {
            self.files.push((p, String::from_str(content)));
            proof {
                assert(self.files@.drop_last() =~= pre);
            }
            Ok(())
        }
    }

    /// Copies the file at `src` to `dst`: a read followed by one write.
    pub fn copy(&mut self, src: &str, dst: &str) -> (r: Result<(), Error>)
        ensures
            !old(self).contents().contains_key(src@) ==> r == Err::<(), Error>(Error::NotFound)
                && final(self).contents() == old(self).contents() && final(self).fault_plan()
                == old(self).fault_plan(),
            old(self).contents().contains_key(src@) ==> final(self).fault_plan() == fault_step(
                old(self).fault_plan(),
            ),
            old(self).contents().contains_key(src@) && old(self).fault_plan() == Some(0u64)
                ==> r == Err::<(), Error>(Error::IoError) && final(self).contents().dom() == old(
                self,
            ).contents().dom().insert(dst@) && (forall|k: Seq<char>|
                k != dst@ ==> #[trigger] final(self).contents().get(k) == old(
                    self,
                ).contents().get(k)),
            old(self).contents().contains_key(src@) && old(self).fault_plan() != Some(0u64)
                ==> r is Ok && final(self).contents() == old(self).contents().insert(
                dst@,
                old(self).contents()[src@],
            ),
    {
        let c = match self.read(src) {
            Ok(c) => c,
            Err(_) => {
                return Err(Error::NotFound);
            },
        };
        self.write(dst, c.as_str())
    }

    /// Removes the file at `path`, if any.  Removal is not interrupted
    /// by the fault plan.
    pub fn remove(&mut self, path: &str)
        ensures
            final(self).contents() == old(self).contents().remove(path@),
            final(self).fault_plan() == old(self).fault_plan(),
    {
        let p = String::from_str(path);
        let n = self.files.len();
        let mut kept: Vec<(String, String)> = Vec::new();
        let mut i: usize = 0;
        proof {
            assert(self.files@.take(0) =~= Seq::<(String, String)>::empty());
            assert(map_of(kept@) =~= map_of(self.files@.take(0)).remove(path@));
        }
        while i < n
            invariant
                i <= n,
                n == self.files@.len(),
                p@ == path@,
                map_of(kept@) == map_of(self.files@.take(i as int)).remove(path@),
            decreases n - i,
        {
            proof {
                assert(self.files@.take(i + 1).drop_last() =~= self.files@.take(i as int));
                assert(self.files@.take(i + 1).last() == self.files@[i as int]);
            }
            let ghost kept_pre = kept@;
            if !(self.files[i].0 == p) {
                let path_c = self.files[i].0.clone();
                let content_c = self.files[i].1.clone();
                kept.push((path_c, content_c));
                proof {
                    assert(kept@.drop_last() =~= kept_pre);
                    assert(map_of(kept@) =~= map_of(self.files@.take(i + 1)).remove(path@));
                }
            } else {
                proof {
                    assert(map_of(kept@) =~= map_of(self.files@.take(i + 1)).remove(path@));
                }
            }
            i = i + 1;
        }
        proof {
            assert(self.files@.take(n as int) =~= self.files@);
        }
        self.files = kept;
    }
}

/// The sibling path where `set` keeps its backup.
pub open spec fn backup_path(p: Seq<char>) -> Seq<char> {
    p + ".bak"@
}

/// A path never equals its own backup path.
pub proof fn lemma_backup_distinct(p: Seq<char>)
    ensures
        backup_path(p) != p,
{
    reveal_strlit(".bak");
    assert(backup_path(p).len() == p.len() + 4);
}

/// The backup path of `file`.
pub fn backup_path_of(file: &str) -> (r: String)
    ensures
        r@ == backup_path(file@),
{
    let mut s = String::from_str(file);
    s.append(".bak");
    s
}

/// Reads the artifact at `file`.
pub fn get(disk: &Disk, file: &str) -> (r: Result<String, Error>)
    ensures
        match r {
            Ok(c) => disk.contents().contains_key(file@) && disk.contents()[file@] == c@,
            Err(e) => !disk.contents().contains_key(file@) && e == Error::NotFound,
        },
{
    disk.read(file)
}

/// How many writes `set` performs before the backup is removed.
pub open spec fn set_write_count(existed: bool) -> u64 {
    if existed {
        2
    } else {
        1
    }
}

/// What a crash-consistent replacement of `file` by `content`
/// guarantees, relating the store before (`pre`, with fault plan
/// `pre_fault`) to the store after (`post`) and the outcome `r`.
pub open spec fn set_post(
    pre: Map<Seq<char>, Seq<char>>,
    pre_fault: Option<u64>,
    post: Map<Seq<char>, Seq<char>>,
    post_fault: Option<u64>,
    file: Seq<char>,
    content: Seq<char>,
    r: Result<(), Error>,
) -> bool {
    // success exactly when no fault fires during the writes
    &&& (r is Ok <==> (pre_fault is None || pre_fault->0 >= set_write_count(
        pre.contains_key(file),
    )))
    // on success the file holds the new content and the backup is gone
    &&& (r is Ok ==> post.get(file) == Some(content) && !post.contains_key(backup_path(file)))
    // on failure the file holds exactly what it held before
    &&& (r is Err ==> post.get(file) == pre.get(file))
    // nothing but the file and its backup is ever touched
    &&& (forall|k: Seq<char>|
        k != file && k != backup_path(file) ==> #[trigger] post.get(k) == pre.get(k))
    // the error tells where it failed: backing up, or writing
    &&& (r is Err ==> (r == Err::<(), Error>(Error::IoError) && pre_fault == Some(0u64)
        && pre.contains_key(file)) || (r == Err::<(), Error>(Error::WriteFailed) && pre_fault
        == Some((set_write_count(pre.contains_key(file)) - 1) as u64)))
    // a healthy disk stays healthy
    &&& (pre_fault is None ==> post_fault is None)
}

/// Round-trip: after a successful `set` of `content` at `file`, a
/// `get` of `file` returns exactly `content`.
pub proof fn lemma_set_get_round_trip(
    pre: Map<Seq<char>, Seq<char>>,
    pre_fault: Option<u64>,
    post: Map<Seq<char>, Seq<char>>,
    post_fault: Option<u64>,
    file: Seq<char>,
    content: Seq<char>,
)
    requires
        set_post(pre, pre_fault, post, post_fault, file, content, Ok(())),
    ensures
        post.get(file) == Some(content),
{
}

/// Crash safety: however `set` fails — the backup copy interrupted, or
/// the write itself interrupted after the backup was taken — the file
/// afterwards holds exactly what it held before, never a torn or empty
/// intermediate.
pub proof fn lemma_set_crash_safe(
    pre: Map<Seq<char>, Seq<char>>,
    pre_fault: Option<u64>,
    post: Map<Seq<char>, Seq<char>>,
    post_fault: Option<u64>,
    file: Seq<char>,
    content: Seq<char>,
    r: Result<(), Error>,
)
    requires
        set_post(pre, pre_fault, post, post_fault, file, content, r),
        r is Err,
    ensures
        post.get(file) == pre.get(file),
{
}

/// Replaces the artifact at `file` with `content`, crash-consistently.
///
/// If a file is already there it is first copied to its backup path;
/// then the new content is written; a failed write is rolled back from
/// the backup.  Whatever single fault the medium springs, afterwards the
/// file holds either the new content (`Ok`) or exactly its previous
/// content (`Err`) — never a torn intermediate.
pub fn set(disk: &mut Disk, file: &str, content: &str) -> (r: Result<(), Error>)
    ensures
        set_post(
            old(disk).contents(),
            old(disk).fault_plan(),
            final(disk).contents(),
            final(disk).fault_plan(),
            file@,
            content@,
            r,
        ),
{
    proof {
        lemma_backup_distinct(file@);
    }
    let ghost orig = disk.contents();
    let bak = backup_path_of(file);
    let backed_up = disk.has_file(file);
    if backed_up {
        match disk.copy(file, bak.as_str()) {
            Ok(()) => {},
            Err(_) => {
                proof {
                    assert forall|k: Seq<char>| k != file@ && k != backup_path(file@) implies
                        #[trigger] disk.contents().get(k) == orig.get(k) by {
                        assert(disk.contents().get(k) == orig.get(k));
                    }
                }
                return Err(Error::IoError);
            },
        }
    }
    let ghost staged = disk.contents();
    proof {
        assert(staged.get(file@) == orig.get(file@));
        if backed_up {
            assert(staged.get(bak@) == Some(orig[file@]));
        }
    }
    match disk.write(file, content) {
        Ok(()) => {
            proof {
                assert(disk.contents().get(file@) == Some(content@));
            }
            disk.remove(bak.as_str());
            proof {
                assert(disk.contents().get(file@) == Some(content@));
                assert(!disk.contents().contains_key(bak@));
                assert forall|k: Seq<char>| k != file@ && k != backup_path(file@) implies
                    #[trigger] disk.contents().get(k) == orig.get(k) by {
                    assert(staged.get(k) == orig.get(k));
                }
            }
            Ok(())
        },
        Err(_) => {
            let ghost torn = disk.contents();
            proof {
                assert(forall|k: Seq<char>|
                    k != file@ ==> #[trigger] torn.get(k) == staged.get(k));
            }
            if backed_up {
                proof {
                    assert(torn.get(bak@) == Some(orig[file@]));
                    assert(torn.contains_key(bak@));
                }
                match disk.copy(bak.as_str(), file) {
                    Ok(()) => {
                        proof {
                            assert(disk.contents() == torn.insert(file@, torn[bak@]));
                            assert(disk.contents().get(file@) == Some(orig[file@]));
                            assert forall|k: Seq<char>| k != file@ && k != backup_path(file@)
                                implies #[trigger] disk.contents().get(k) == orig.get(k) by {
                                assert(torn.get(k) == staged.get(k));
                                assert(staged.get(k) == orig.get(k));
                            }
                        }
                        Err(Error::WriteFailed)
                    },
                    Err(_) => Err(Error::IoError),
                }
            } else {
                // the torn, never-before-existing file is cleared away
                disk.remove(file);
                proof {
                    assert(disk.contents().get(file@) == orig.get(file@));
                    assert forall|k: Seq<char>| k != file@ && k != backup_path(file@) implies
                        #[trigger] disk.contents().get(k) == orig.get(k) by {
                        assert(torn.get(k) == staged.get(k));
                    }
                }
                Err(Error::WriteFailed)
            }
        },
    }
}

} // verus!
