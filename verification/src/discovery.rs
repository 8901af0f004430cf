//! Choosing an engine installation from candidate directories.
//!
//! The filesystem scan itself happens at the boundary; the selection
//! rules — which directory entries count as installations, and which
//! installation is the newest — are decided here.

use crate::engine::Office;
use crate::text::has_prefix;
use crate::version::version_parse_spec;
use crate::version::ProductVersion;
use vstd::prelude::*;

verus! {

/// One directory entry of the installation root, as the filesystem
/// reports it.
pub struct OptEntry {
    /// The entry's name.
    pub name: String,
    /// The entry is a directory.
    pub is_dir: bool,
    /// The entry has a `program` subdirectory.
    pub has_program: bool,
}

/// An entry counts as an installation when it is a directory named
/// `libreoffice` followed by a well-formed version, with a `program`
/// subdirectory.
pub open spec fn spec_accepts(e: OptEntry) -> bool {
    &&& e.is_dir
    &&& has_prefix(e.name@, "libreoffice"@)
    &&& version_parse_spec(e.name@.subrange("libreoffice"@.len() as int, e.name@.len() as int))
        is Some
    &&& e.has_program
}

/// The version an accepted entry's name carries.
pub open spec fn spec_entry_version(e: OptEntry) -> ProductVersion
    recommends
        spec_accepts(e),
{
    version_parse_spec(
        e.name@.subrange("libreoffice"@.len() as int, e.name@.len() as int),
    ).unwrap()
}

/// The program directory an accepted entry denotes.
pub open spec fn spec_entry_path(e: OptEntry) -> Seq<char> {
    "/opt/"@ + e.name@ + "/program"@
}

/// The installations among the entries, in order.
pub open spec fn spec_installs(entries: Seq<OptEntry>) -> Seq<(ProductVersion, Seq<char>)>
    decreases entries.len(),
{
    if entries.len() == 0 {
        Seq::empty()
    } else {
        let rest = spec_installs(entries.drop_last());
        if spec_accepts(entries.last()) {
            rest.push((spec_entry_version(entries.last()), spec_entry_path(entries.last())))
        } else {
            rest
        }
    }
}

/// The newest installation's index: its version is at least every
/// other's, and every later entry is strictly older.
pub open spec fn is_latest_index(installs: Seq<(ProductVersion, Seq<char>)>, i: int) -> bool {
    &&& 0 <= i < installs.len()
    &&& forall|j: int| 0 <= j < installs.len() ==> installs[i].0.spec_ge(#[trigger] installs[j].0)
    &&& forall|j: int| i < j < installs.len() ==> !(#[trigger] installs[j].0).spec_ge(installs[i].0)
}

impl Office {
    /// Selects the engine installations among the given directory
    /// entries: for each accepted entry, its version and its program
    /// directory.
    pub fn find_opt_installs(entries: &Vec<OptEntry>) -> (r: Vec<(ProductVersion, String)>)
        ensures
            r@.len() == spec_installs(entries@).len(),
            forall|i: int|
                0 <= i < r@.len() ==> r@[i].0 == spec_installs(entries@)[i].0 && r@[i].1@
                    == spec_installs(entries@)[i].1,
    {
        let n = entries.len();
        let mut out: Vec<(ProductVersion, String)> = Vec::new();
        let mut i: usize = 0;
        while i < n
            invariant
                n == entries@.len(),
                i <= n,
                out@.len() == spec_installs(entries@.subrange(0, i as int)).len(),
                forall|j: int|
                    0 <= j < out@.len() ==> out@[j].0 == spec_installs(
                        entries@.subrange(0, i as int),
                    )[j].0 && out@[j].1@ == spec_installs(entries@.subrange(0, i as int))[j].1,
            decreases n - i,
        {
            let e = &entries[i];
            proof {
                assert(entries@.subrange(0, (i + 1) as int).drop_last() =~= entries@.subrange(
                    0,
                    i as int,
                ));
                assert(entries@.subrange(0, (i + 1) as int).last() == entries@[i as int]);
            }
            if e.is_dir && e.has_program && crate::text::str_has_prefix(
                e.name.as_str(),
                "libreoffice",
            ) {
                let name_len = e.name.as_str().unicode_len();
                proof {
                    reveal_strlit("libreoffice");
                }
                let version_part = e.name.as_str().substring_char(11, name_len);
                match ProductVersion::parse(version_part) {
                    Ok(version) => {
                        let path = String::from_str("/opt/").concat(e.name.as_str()).concat(
                            "/program",
                        );
                        out.push((version, path));
                    },
                    Err(_) => {},
                }
            }
            i += 1;
        }
        proof {
            assert(entries@.subrange(0, n as int) =~= entries@);
        }
        out
    }

    /// Selects the newest installation among the given directory
    /// entries: the one whose version is greatest, taking the last such
    /// entry when several share it.
    pub fn find_opt_latest(entries: &Vec<OptEntry>) -> (r: Option<String>)
        ensures
            match r {
                Some(path) => exists|i: int|
                    is_latest_index(spec_installs(entries@), i) && path@ == spec_installs(
                        entries@,
                    )[i].1,
                None => spec_installs(entries@).len() == 0,
            },
    {
        let installs = Office::find_opt_installs(entries);
        let n = installs.len();
        if n == 0 {
            return None;
        }
        let mut best: usize = 0;
        let mut i: usize = 1;
        while i < n
            invariant
                n == installs@.len(),
                1 <= n,
                best < i <= n,
                forall|j: int|
                    0 <= j < i ==> installs@[best as int].0.spec_ge(#[trigger] installs@[j].0),
                forall|j: int|
                    best < j < i ==> !(#[trigger] installs@[j].0).spec_ge(
                        installs@[best as int].0,
                    ),
            decreases n - i,
        {
            if installs[i].0.ge(&installs[best].0) {
                best = i;
            } else {
                proof {
                    // versions are totally ordered by major then minor
                    assert(installs@[best as int].0.spec_ge(installs@[i as int].0));
                }
            }
            i += 1;
        }
        proof {
            let spec = spec_installs(entries@);
            assert forall|j: int| 0 <= j < spec.len() implies spec[best as int].0.spec_ge(
                #[trigger] spec[j].0,
            ) by {
                assert(installs@[best as int].0.spec_ge(installs@[j].0));
            }
            assert forall|j: int| best < j < spec.len() implies !(#[trigger] spec[j].0).spec_ge(
                spec[best as int].0,
            ) by {
                assert(!installs@[j].0.spec_ge(installs@[best as int].0));
            }
            assert(is_latest_index(spec, best as int));
        }
        Some(installs[best].1.clone())
    }

    /// Picks the installation to use from the probed well-known
    /// locations, each with its existence flag: the first one that
    /// exists wins; with none present, the fallback already selected
    /// from the installation root is used.
    pub fn find_install_path(known: &Vec<(String, bool)>, fallback: Option<String>) -> (r: Option<
        String,
    >)
        ensures
            match r {
                Some(p) => (exists|i: int|
                    0 <= i < known@.len() && #[trigger] known@[i].1 && p@ == known@[i].0@ && (
                    forall|j: int| 0 <= j < i ==> !known@[j].1)) || ((forall|i: int|
                    0 <= i < known@.len() ==> !(#[trigger] known@[i].1)) && (
                fallback matches Some(f) && p@ == f@)),
                None => (forall|i: int| 0 <= i < known@.len() ==> !(#[trigger] known@[i].1))
                    && fallback is None,
            },
    {
        let n = known.len();
        let mut i: usize = 0;
        while i < n
            invariant
                n == known@.len(),
                i <= n,
                forall|j: int| 0 <= j < i ==> !known@[j].1,
            decreases n - i,
        {
            if known[i].1 {
                return Some(known[i].0.clone());
            }
            i += 1;
        }
        fallback
    }
}

} // verus!
