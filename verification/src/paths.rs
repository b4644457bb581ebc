//! The locations of the test material: the certificate and key sit under
//! `tests/` in the repository root, three levels above the directory that
//! the tests run in; the test socket sits in the temporary directory.

use vstd::prelude::*;

verus! {

/// The parent of a path, as `std::path::Path::parent` gives it (`None` for
/// a root or an empty path).
pub uninterp spec fn path_parent(p: Seq<char>) -> Option<Seq<char>>;

/// A path with another joined onto it, as `std::path::Path::join` gives it.
pub uninterp spec fn path_join(base: Seq<char>, rel: Seq<char>) -> Seq<char>;

/// The parent of a path, with `std::path::Path::parent`; its text is named
/// (`path_parent`).
#[verifier::external_body]
fn parent_of(p: &str) -> (r: Option<String>)
    ensures
        match r {
            Some(q) => path_parent(p@) == Some(q@),
            None => path_parent(p@) is None,
        },
{
    std::path::Path::new(p).parent().map(|q| q.to_string_lossy().into_owned())
}

/// A plain file or directory name: letters, digits, `.`, `_` and `-`, and
/// neither `.` nor `..`.
pub open spec fn plain_name(s: Seq<char>) -> bool {
    &&& s.len() > 0
    &&& s != seq!['.']
    &&& s != seq!['.', '.']
    &&& forall|i: int|
        0 <= i < s.len() ==> {
            let c = #[trigger] s[i];
            ('a' <= c <= 'z') || ('A' <= c <= 'Z') || ('0' <= c <= '9') || c == '.' || c == '_' || c == '-'
        }
}

/// A path joined onto another, with `std::path::Path::join`; its text is
/// named (`path_join`). Joining `dir/file` (two plain names) appends both
/// components, so the parent of the result (`Path::parent` drops the last
/// component) is the base joined with `dir`.
#[verifier::external_body]
fn join(base: &str, rel: &str) -> (r: String)
    ensures
        r@ == path_join(base@, rel@),
        forall|dir: Seq<char>, file: Seq<char>|
            plain_name(dir) && plain_name(file) && rel@ == dir + seq!['/'] + file ==> path_parent(r@)
                == Some(path_join(base@, dir)),
{
    std::path::Path::new(base).join(rel).to_string_lossy().into_owned()
}

/// The ancestor of a path `n` levels up, if it has one.
pub open spec fn ancestor(p: Seq<char>, n: nat) -> Option<Seq<char>>
    decreases n,
{
    if n == 0 {
        Some(p)
    } else {
        match path_parent(p) {
            Some(q) => ancestor(q, (n - 1) as nat),
            None => None,
        }
    }
}

/// The repository root: three levels above the working directory `cwd`.
/// `None` when `cwd` has fewer ancestors.
pub fn get_root_dir(cwd: &str) -> (r: Option<String>)
    ensures
        match r {
            Some(root) => ancestor(cwd@, 3) == Some(root@),
            None => ancestor(cwd@, 3) is None,
        },
{
    proof {
        reveal_with_fuel(ancestor, 4);
    }
    match parent_of(cwd) {
        Some(p1) => match parent_of(p1.as_str()) {
            Some(p2) => parent_of(p2.as_str()),
            None => None,
        },
        None => None,
    }
}

/// The test material at `rel` under the repository root.
pub open spec fn test_file(cwd: Seq<char>, rel: Seq<char>) -> Option<Seq<char>> {
    match ancestor(cwd, 3) {
        Some(root) => Some(path_join(root, rel)),
        None => None,
    }
}

/// The test certificate, `tests/cert.pem` under the repository root of the
/// working directory `cwd`, in the same directory as the test key (`tests`
/// under the root). `None` when `cwd` has fewer than three ancestors.
pub fn get_test_cert_path(cwd: &str) -> (r: Option<String>)
    ensures
        match r {
            Some(p) => test_file(cwd@, "tests/cert.pem"@) == Some(p@) && path_parent(p@) == test_file(
                cwd@,
                "tests"@,
            ),
            None => test_file(cwd@, "tests/cert.pem"@) is None,
        },
{
    match get_root_dir(cwd) {
        Some(root) => {
            let p = join(root.as_str(), "tests/cert.pem");
            proof {
                reveal_strlit("tests");
                reveal_strlit("cert.pem");
                reveal_strlit("tests/cert.pem");
                assert("tests/cert.pem"@ =~= "tests"@ + seq!['/'] + "cert.pem"@);
                assert(plain_name("tests"@));
                assert(plain_name("cert.pem"@));
            }
            Some(p)
        },
        None => None,
    }
}

/// The test key, `tests/key.pem` under the repository root of the working
/// directory `cwd`, in the same directory as the test certificate (`tests`
/// under the root). `None` when `cwd` has fewer than three ancestors.
pub fn get_test_key_path(cwd: &str) -> (r: Option<String>)
    ensures
        match r {
            Some(p) => test_file(cwd@, "tests/key.pem"@) == Some(p@) && path_parent(p@) == test_file(
                cwd@,
                "tests"@,
            ),
            None => test_file(cwd@, "tests/key.pem"@) is None,
        },
{
    match get_root_dir(cwd) {
        Some(root) => {
            let p = join(root.as_str(), "tests/key.pem");
            proof {
                reveal_strlit("tests");
                reveal_strlit("key.pem");
                reveal_strlit("tests/key.pem");
                assert("tests/key.pem"@ =~= "tests"@ + seq!['/'] + "key.pem"@);
                assert(plain_name("tests"@));
                assert(plain_name("key.pem"@));
            }
            Some(p)
        },
        None => None,
    }
}

/// The socket of the proxy's tests, `my.sock` in the temporary directory
/// `temp_dir`.
pub fn get_test_socket_path(temp_dir: &str) -> (r: String)
    ensures
        r@ == path_join(temp_dir@, "my.sock"@),
{
    join(temp_dir, "my.sock")
}

} // verus!
