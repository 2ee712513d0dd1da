//! Where things are: the staging directory, the built binaries and the
//! archives made of them.
use vstd::prelude::*;

verus! {

/// The name of the staging directory, relative to the working directory.
pub open spec fn staging_dir() -> Seq<char> {
    "gh-tmp"@
}

/// The path at which the build leaves the binary `bin_name` for `target`.
pub open spec fn binary_path(target: Seq<char>, bin_name: Seq<char>) -> Seq<char> {
    "target/"@ + target + "/release/"@ + bin_name
}

/// The path of the archive of `bin_name` at `version` for `target`:
/// `gh-tmp/<bin_name>-<version>-<target>.tar.gz`.
pub open spec fn archive_path(bin_name: Seq<char>, version: Seq<char>, target: Seq<char>) -> Seq<
    char,
> {
    staging_dir() + "/"@ + bin_name + "-"@ + version + "-"@ + target + ".tar.gz"@
}

/// The staging directory's name.
pub fn staging_dir_name() -> (name: String)
    ensures
        name@ == staging_dir(),
{
    String::from_str("gh-tmp")
}

/// The path of the built binary; see [`binary_path`].
pub fn binary_path_of(target: &str, bin_name: &str) -> (path: String)
    ensures
        path@ == binary_path(target@, bin_name@),
{
    let mut path = String::from_str("target/");
    path.append(target);
    path.append("/release/");
    path.append(bin_name);
    path
}

/// The path of the archive; see [`archive_path`].
pub fn archive_path_of(bin_name: &str, version: &str, target: &str) -> (path: String)
    ensures
        path@ == archive_path(bin_name@, version@, target@),
{
    let mut path = staging_dir_name();
    path.append("/");
    path.append(bin_name);
    path.append("-");
    path.append(version);
    path.append("-");
    path.append(target);
    path.append(".tar.gz");
    path
}

/// Archives of one binary at one version lie at the same path only when they
/// are for the same target.
pub proof fn lemma_archive_path_injective(
    bin_name: Seq<char>,
    version: Seq<char>,
    first: Seq<char>,
    second: Seq<char>,
)
    requires
        archive_path(bin_name, version, first) == archive_path(bin_name, version, second),
    ensures
        first == second,
{
    // Both paths are the same head, the target, and the same tail.
    let head = staging_dir() + "/"@ + bin_name + "-"@ + version + "-"@;
    let tail = ".tar.gz"@;
    let p = archive_path(bin_name, version, first);
    let q = archive_path(bin_name, version, second);
    assert(p.len() == head.len() + first.len() + tail.len());
    assert(q.len() == head.len() + second.len() + tail.len());
    assert forall|k: int| 0 <= k < first.len() implies first[k] == second[k] by {
        assert(p[head.len() + k] == first[k]);
        assert(q[head.len() + k] == second[k]);
    }
    assert(first =~= second);
}

} // verus!
