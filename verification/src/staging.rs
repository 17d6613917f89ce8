//! The staging manager's idempotency primitive.
//!
//! Every directory the pipeline touches is prepared through one get-or-create
//! step: probe whether the directory exists, create it only when it does not,
//! and report both the path and whether creation occurred. The probe is a
//! shell test yielding a two-valued sentinel line; any other output is an
//! unexpected-output failure. `FsModel` is a plain model of the directories
//! that exist, against which the primitive itself is verified and tested; the
//! surrounding application performs the same steps against the real
//! filesystem through the pipeline's requested commands.

use vstd::prelude::*;

use crate::text::str_eq;

verus! {

/// What the existence probe's output means: the directory exists, it is
/// missing, or the probe said something it never should.
#[derive(Clone, Copy, Debug, PartialEq, Eq, Structural)]
pub enum DirProbe {
    Exists,
    Missing,
    Unexpected,
}

/// The meaning of the probe's sentinel output: exactly `Y` or `N`, each on
/// its own line; everything else is unexpected.
pub open spec fn classify_sentinel(s: Seq<char>) -> DirProbe {
    if s == "Y\n"@ {
        DirProbe::Exists
    } else if s == "N\n"@ {
        DirProbe::Missing
    } else {
        DirProbe::Unexpected
    }
}

/// Classifies the existence probe's captured output.
pub fn classify_dir_sentinel(out: &str) -> (r: DirProbe)
    ensures
        r == classify_sentinel(out@),
{
    if str_eq(out, "Y\n") {
        DirProbe::Exists
    } else if str_eq(out, "N\n") {
        DirProbe::Missing
    } else {
        DirProbe::Unexpected
    }
}

/// A plain model of the filesystem: the set of directories that exist.
pub struct FsModel {
    pub dirs: Vec<String>,
}

impl View for FsModel {
    type V = Set<Seq<char>>;

    open spec fn view(&self) -> Set<Seq<char>> {
        self.dirs@.map_values(|d: String| d@).to_set()
    }
}

/// What one get-or-create step does to the directories that exist: the path
/// exists afterwards, and creation is reported iff it did not exist before.
pub open spec fn get_or_create_spec(fs: Set<Seq<char>>, path: Seq<char>) -> (
    Set<Seq<char>>,
    bool,
) {
    (fs.insert(path), !fs.contains(path))
}

impl FsModel {
    /// A filesystem with no directories.
    pub fn new() -> (r: Self)
        ensures
            r@ == Set::<Seq<char>>::empty(),
    {
        let r = FsModel { dirs: Vec::new() };
        proof {
            assert(r@ =~= Set::<Seq<char>>::empty());
        }
        r
    }

    /// Whether the directory exists in the model.
    pub fn contains_dir(&self, path: &str) -> (r: bool)
        ensures
            r == self@.contains(path@),
    {
        let mut i: usize = 0;
        let ghost mapped = self.dirs@.map_values(|d: String| d@);
        while i < self.dirs.len()
            invariant
                i <= self.dirs.len(),
                mapped == self.dirs@.map_values(|d: String| d@),
                forall|j: int| 0 <= j < i ==> mapped[j] != path@,
            decreases self.dirs.len() - i,
        {
            if str_eq(self.dirs[i].as_str(), path) {
                proof {
                    assert(mapped[i as int] == path@);
                    assert(mapped.to_set().contains(path@));
                }
                return true;
            }
            i += 1;
        }
        proof {
            assert forall|x: Seq<char>| mapped.to_set().contains(x) implies x != path@ by {
                let j = choose|j: int| 0 <= j < mapped.len() && mapped[j] == x;
            }
        }
        false
    }
}

/// The staging manager's idempotent primitive: tests whether the directory
/// exists, creates it only when it does not, and returns the resolved path
/// together with whether creation occurred.
pub fn get_or_create(fs: &mut FsModel, path: &String) -> (r: (String, bool))
    ensures
        r.0@ == path@,
        (final(fs)@, r.1) == get_or_create_spec(old(fs)@, path@),
{
    if fs.contains_dir(path.as_str()) {
        proof {
            assert(fs@ =~= fs@.insert(path@));
        }
        (path.clone(), false)
    } else {
        let ghost before = fs@;
        fs.dirs.push(path.clone());
        proof {
            let oldm = old(fs).dirs@.map_values(|d: String| d@);
            let newm = fs.dirs@.map_values(|d: String| d@);
            assert(newm =~= oldm.push(path@));
            assert forall|x: Seq<char>| newm.to_set().contains(x) implies before.insert(
                path@,
            ).contains(x) by {
                let i = choose|i: int| 0 <= i < newm.len() && newm[i] == x;
                if i < oldm.len() {
                    assert(oldm[i] == x);
                    assert(oldm.to_set().contains(x));
                }
            }
            assert forall|x: Seq<char>| before.insert(path@).contains(x) implies newm.to_set()
                .contains(x) by {
                if x == path@ {
                    assert(newm[newm.len() - 1] == x);
                } else {
                    let i = choose|i: int| 0 <= i < oldm.len() && oldm[i] == x;
                    assert(newm[i] == x);
                }
            }
            assert(fs@ =~= before.insert(path@));
        }
        (path.clone(), true)
    }
}

/// Idempotence of get-or-create: on an unmodified filesystem, a second step
/// for the same path reports `created == false` and changes nothing — the
/// path itself is returned unchanged by every step, as `get_or_create`'s
/// contract states.
pub proof fn lemma_get_or_create_idempotent(fs: Set<Seq<char>>, path: Seq<char>)
    ensures
        !get_or_create_spec(get_or_create_spec(fs, path).0, path).1,
        get_or_create_spec(get_or_create_spec(fs, path).0, path).0 =~= get_or_create_spec(
            fs,
            path,
        ).0,
{
}

} // verus!
