//! Bookkeeping for bulk extraction: the registry of directories known to
//! exist on disk, and the ancestor directories an entry still needs.

use vstd::prelude::*;
use vstd::string::StrSliceExecFns;

use crate::text::chars_to_string;

verus! {

/// Whether `d` is a proper ancestor directory of the relative path `name`:
/// the prefix of `name` that ends just before one of its `/` separators.
pub open spec fn spec_is_parent_prefix(name: Seq<char>, d: Seq<char>) -> bool {
    exists|i: int| 0 <= i < name.len() && name[i] == '/' && d == name.subrange(0, i)
}

/// Whether some entry of `r` spells the path `d`.
pub open spec fn spec_seq_has_str(r: Seq<String>, d: Seq<char>) -> bool {
    exists|k: int| 0 <= k < r.len() && r[k]@ == d
}

/// The monotonically growing set of relative directory paths that are known
/// to exist under the extraction root.
pub struct CompletedPaths {
    paths: Vec<String>,
}

impl CompletedPaths {
    /// Whether the registry knows the directory `d`.
    pub closed spec fn has(self, d: Seq<char>) -> bool {
        spec_seq_has_str(self.paths@, d)
    }

    /// An empty registry.
    pub fn new() -> (r: CompletedPaths)
        ensures
            forall|d: Seq<char>| !r.has(d),
    {
        CompletedPaths { paths: Vec::new() }
    }

    /// Whether the registry knows the directory `dir`.
    pub fn contains(&self, dir: &str) -> (r: bool)
        ensures
            r == self.has(dir@),
    {
        let mut j: usize = 0;
        while j < self.paths.len()
            invariant
                0 <= j <= self.paths@.len(),
                forall|k: int| 0 <= k < j ==> self.paths@[k]@ != dir@,
            decreases self.paths@.len() - j,
        {
            if compare_strings(self.paths[j].as_str(), dir) {
                return true;
            }
            j = j + 1;
        }
        false
    }

    /// The ancestor directories of `name` that the registry does not know
    /// yet, nested outermost first.
    pub fn new_containing_dirs_needed(&self, name: &str) -> (r: Vec<String>)
        ensures
            forall|k: int|
                0 <= k < r@.len() ==> spec_is_parent_prefix(name@, #[trigger] r@[k]@) && !self.has(
                    r@[k]@,
                ),
            forall|d: Seq<char>|
                spec_is_parent_prefix(name@, d) && !self.has(d) ==> spec_seq_has_str(r@, d),
            forall|k1: int, k2: int|
                0 <= k1 < k2 < r@.len() ==> r@[k1]@.len() < r@[k2]@.len(),
    {
        let n: usize = name.unicode_len();
        let mut chars: Vec<char> = Vec::new();
        let mut i: usize = 0;
        while i < n
            invariant
                0 <= i <= n,
                n == name@.len(),
                chars@ == name@.subrange(0, i as int),
            decreases n - i,
        {
            chars.push(name.get_char(i));
            i = i + 1;
            assert(chars@ =~= name@.subrange(0, i as int));
        }
        assert(chars@ =~= name@);

        let mut out: Vec<String> = Vec::new();
        let mut i: usize = 0;
        while i < n
            invariant
                0 <= i <= n,
                n == name@.len(),
                chars@ == name@,
                forall|k: int|
                    0 <= k < out@.len() ==> spec_is_parent_prefix(name@, #[trigger] out@[k]@)
                        && !self.has(out@[k]@) && out@[k]@.len() < i,
                forall|ii: int|
                    0 <= ii < i && name@[ii] == '/' && !self.has(name@.subrange(0, ii))
                        ==> spec_seq_has_str(out@, name@.subrange(0, ii)),
                forall|k1: int, k2: int|
                    0 <= k1 < k2 < out@.len() ==> out@[k1]@.len() < out@[k2]@.len(),
            decreases n - i,
        {
            if chars[i] == '/' {
                let mut prefix: Vec<char> = Vec::new();
                let mut j: usize = 0;
                while j < i
                    invariant
                        0 <= j <= i,
                        i <= chars@.len(),
                        prefix@ == chars@.subrange(0, j as int),
                    decreases i - j,
                {
                    prefix.push(chars[j]);
                    j = j + 1;
                    assert(prefix@ =~= chars@.subrange(0, j as int));
                }
                let dir = chars_to_string(&prefix);
                let ghost old_out = out@;
                if !self.contains(dir.as_str()) {
                    proof {
                        assert(dir@ == name@.subrange(0, i as int));
                        assert(spec_is_parent_prefix(name@, dir@));
                    }
                    out.push(dir);
                }
                proof {
                    assert forall|ii: int|
                        0 <= ii < i + 1 && name@[ii] == '/' && !self.has(
                            name@.subrange(0, ii),
                        ) implies spec_seq_has_str(out@, name@.subrange(0, ii)) by {
                        if ii < i {
                            let k = choose|k: int|
                                0 <= k < old_out.len() && old_out[k]@ == name@.subrange(0, ii);
                            assert(out@[k]@ == name@.subrange(0, ii));
                        } else {
                            assert(out@[out@.len() - 1]@ == name@.subrange(0, ii));
                        }
                    }
                }
            }
            i = i + 1;
        }
        proof {
            assert forall|d: Seq<char>|
                spec_is_parent_prefix(name@, d) && !self.has(d) implies spec_seq_has_str(
                out@,
                d,
            ) by {
                let ii = choose|ii: int|
                    0 <= ii < name@.len() && name@[ii] == '/' && d == name@.subrange(0, ii);
                assert(spec_seq_has_str(out@, name@.subrange(0, ii)));
            }
        }
        out
    }

    /// Records directories as existing; everything already known stays
    /// known.
    pub fn write_dirs(&mut self, dirs: Vec<String>)
        ensures
            forall|d: Seq<char>|
                final(self).has(d) <==> old(self).has(d) || spec_seq_has_str(dirs@, d),
    {
        let ghost old_paths = self.paths@;
        let ghost added = dirs@;
        let mut dirs_in = dirs;
        self.paths.append(&mut dirs_in);
        proof {
            assert forall|d: Seq<char>|
                self.has(d) <==> old(self).has(d) || spec_seq_has_str(dirs@, d) by {
                if self.has(d) {
                    let k = choose|k: int| 0 <= k < self.paths@.len() && self.paths@[k]@ == d;
                    if k < old_paths.len() {
                        assert(old_paths[k]@ == d);
                    } else {
                        assert(added == dirs@);
                        assert(added[k - old_paths.len()]@ == d);
                    }
                }
                if old(self).has(d) {
                    let k = choose|k: int| 0 <= k < old_paths.len() && old_paths[k]@ == d;
                    assert(self.paths@[k]@ == d);
                }
                if spec_seq_has_str(dirs@, d) {
                    let k = choose|k: int| 0 <= k < dirs@.len() && dirs@[k]@ == d;
                    assert(added == dirs@);
                    assert(self.paths@[old_paths.len() + k]@ == d);
                }
            }
        }
    }
}

/// Whether two strings spell the same characters.
fn compare_strings(a: &str, b: &str) -> (r: bool)
    ensures
        r == (a@ == b@),
{
    let an: usize = a.unicode_len();
    let bn: usize = b.unicode_len();
    if an != bn {
        return false;
    }
    let mut i: usize = 0;
    while i < an
        invariant
            0 <= i <= an,
            an == a@.len(),
            an == b@.len(),
            forall|j: int| 0 <= j < i ==> a@[j] == b@[j],
        decreases an - i,
    {
        if a.get_char(i) != b.get_char(i) {
            return false;
        }
        i = i + 1;
    }
    proof {
        assert(a@ =~= b@);
    }
    true
}

/// After the ancestor directories that `name` still needed are written into
/// the registry, no ancestor of `name` is missing any more: a second pass
/// over the same entry finds nothing left to create.
pub proof fn lemma_written_dirs_cover(
    cp0: CompletedPaths,
    cp1: CompletedPaths,
    written: Seq<String>,
    name: Seq<char>,
)
    requires
        forall|d: Seq<char>|
            spec_is_parent_prefix(name, d) && !cp0.has(d) ==> spec_seq_has_str(written, d),
        forall|d: Seq<char>| cp1.has(d) <==> cp0.has(d) || spec_seq_has_str(written, d),
    ensures
        forall|d: Seq<char>| spec_is_parent_prefix(name, d) ==> cp1.has(d),
{
}

} // verus!
