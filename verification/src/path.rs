//! Building the host path of a repository file into a fixed buffer.

use vstd::prelude::*;
use vstd::string::StringSliceAdditionalSpecFns;

verus! {

/// Capacity of the path buffer, terminating NUL included.
pub const PATH_BUF: usize = 128;

/// The directory, relative to the host's working directory, that holds the
/// published repository.
pub const PATH_PREFIX: &'static str = "stuf-examples/.generated/publisher-repo/";

/// The bytes of the repository directory.
pub open spec fn path_prefix() -> Seq<u8> {
    PATH_PREFIX.spec_bytes()
}

/// The NUL-terminated host path of the repository file `name`.
pub open spec fn host_path(name: Seq<u8>) -> Seq<u8> {
    path_prefix() + name + seq![0u8]
}

/// Whether the host path of `name` fits in a path buffer.
pub open spec fn path_fits(name: Seq<u8>) -> bool {
    host_path(name).len() <= PATH_BUF
}

/// The repository directory is 40 ASCII bytes long.
pub proof fn lemma_path_prefix_len()
    ensures
        path_prefix().len() == 40,
        path_prefix() == PATH_PREFIX@.map_values(|c: char| c as u8),
{
    reveal_strlit("stuf-examples/.generated/publisher-repo/");
    vstd::string::is_ascii_spec_bytes(PATH_PREFIX);
    assert(path_prefix() =~= PATH_PREFIX@.map_values(|c: char| c as u8));
}

/// The repository directory, byte by byte: the ASCII text
/// `stuf-examples/.generated/publisher-repo/`, ending in `/`.
pub proof fn lemma_path_prefix_bytes()
    ensures
        path_prefix() == seq![
            115u8, 116, 117, 102, 45, 101, 120, 97, 109, 112, 108, 101, 115, 47, 46, 103, 101, 110,
            101, 114, 97, 116, 101, 100, 47, 112, 117, 98, 108, 105, 115, 104, 101, 114, 45, 114,
            101, 112, 111, 47,
        ],
        path_prefix()[39] == 47u8,
{
    lemma_path_prefix_len();
    reveal_strlit("stuf-examples/.generated/publisher-repo/");
    assert(path_prefix() =~= seq![
        115u8, 116, 117, 102, 45, 101, 120, 97, 109, 112, 108, 101, 115, 47, 46, 103, 101, 110,
        101, 114, 97, 116, 101, 100, 47, 112, 117, 98, 108, 105, 115, 104, 101, 114, 45, 114,
        101, 112, 111, 47,
    ]);
}

/// The host path of any name is the whole repository directory, then the
/// name, then a single NUL: nothing of the directory is changed, whatever
/// the name.
pub proof fn lemma_host_path_layout(name: Seq<u8>)
    ensures
        host_path(name).len() == 40 + name.len() + 1,
        host_path(name).take(40) == path_prefix(),
        host_path(name).subrange(40, 40 + name.len() as int) == name,
        host_path(name)[40 + name.len() as int] == 0u8,
        path_fits(name) <==> name.len() <= 87,
{
    lemma_path_prefix_len();
    assert(host_path(name).take(40) =~= path_prefix());
    assert(host_path(name).subrange(40, 40 + name.len() as int) =~= name);
}

/// Distinct file names have distinct host paths, and the name can be read
/// back from its path between the directory and the terminator.
pub proof fn lemma_host_path_injective(a: Seq<u8>, b: Seq<u8>)
    ensures
        host_path(a).subrange(path_prefix().len() as int, host_path(a).len() - 1) == a,
        host_path(a) == host_path(b) ==> a == b,
{
    let n = path_prefix().len() as int;
    assert(host_path(a).subrange(n, host_path(a).len() - 1) =~= a);
    assert(host_path(b).subrange(n, host_path(b).len() - 1) =~= b);
}

/// The bytes of the repository directory.
fn prefix_bytes() -> (b: &'static [u8])
    ensures
        b@ == path_prefix(),
{
    PATH_PREFIX.as_bytes()
}

/// Writes the NUL-terminated host path of `filename` to the front of `buf`
/// and returns its length, terminator included. Returns 0, and leaves `buf`
/// as it was, when the path does not fit.
pub fn build_path(filename: &str, buf: &mut [u8; PATH_BUF]) -> (total: usize)
    ensures
        path_fits(filename.spec_bytes()) ==> {
            &&& total == host_path(filename.spec_bytes()).len()
            &&& final(buf)@ == host_path(filename.spec_bytes()) + old(buf)@.skip(total as int)
            &&& total == 40 + filename.spec_bytes().len() + 1
            &&& final(buf)@.take(40) == path_prefix()
            &&& final(buf)@.subrange(40, total - 1) == filename.spec_bytes()
            &&& final(buf)@[total - 1] == 0u8
        },
        path_fits(filename.spec_bytes()) <==> filename.spec_bytes().len() <= 87,
        !path_fits(filename.spec_bytes()) ==> {
            &&& total == 0
            &&& final(buf)@ == old(buf)@
        },
{
    proof {
        lemma_path_prefix_len();
        lemma_host_path_layout(filename.spec_bytes());
    }
    let prefix = prefix_bytes();
    let fname = filename.as_bytes();
    let ghost name = fname@;
    let ghost path = host_path(name);
    if fname.len() > PATH_BUF - prefix.len() - 1 {
        return 0;
    }
    let total = prefix.len() + fname.len() + 1;
    let mut i: usize = 0;
    while i < prefix.len()
        invariant
            i <= prefix@.len(),
            prefix@ == path_prefix(),
            prefix@.len() == 40,
            buf@.len() == PATH_BUF,
            forall|j: int| 0 <= j < i ==> buf@[j] == prefix@[j],
            forall|j: int| i <= j < PATH_BUF ==> buf@[j] == old(buf)@[j],
        decreases prefix@.len() - i,
    {
        buf[i] = prefix[i];
        i = i + 1;
    }
    let mut k: usize = 0;
    while k < fname.len()
        invariant
            k <= fname@.len(),
            fname@ == name,
            prefix@ == path_prefix(),
            prefix@.len() == 40,
            40 + name.len() + 1 <= PATH_BUF,
            buf@.len() == PATH_BUF,
            forall|j: int| 0 <= j < 40 ==> buf@[j] == prefix@[j],
            forall|j: int| 0 <= j < k ==> buf@[40 + j] == name[j],
            forall|j: int| 40 + k <= j < PATH_BUF ==> buf@[j] == old(buf)@[j],
        decreases fname@.len() - k,
    {
        buf[prefix.len() + k] = fname[k];
        k = k + 1;
    }
    buf[prefix.len() + fname.len()] = 0;
    assert(final(buf)@ =~= path + old(buf)@.skip(total as int)) by {
        assert(path.len() == total);
        assert forall|j: int| 0 <= j < PATH_BUF implies #[trigger] buf@[j] == (path + old(buf)@.skip(total as int))[j] by {
            if j < 40 {
            } else if j < 40 + name.len() {
            } else if j == 40 + name.len() {
            } else {
            }
        }
    }
    total
}

} // verus!
