//! A content cache on disk: each response body is stored in a file whose
//! name is the SHA-256 digest of its cache key, under a directory of its
//! own per provider.
use vstd::prelude::*;
use vstd::string::StringExecFns;
use crate::text::{hex, hex_of};

verus! {

/// The SHA-256 digest of the UTF-8 encoding of `s`.
pub uninterp spec fn sha256_of(s: Seq<char>) -> Seq<u8>;

/// Relies on `sha2::Sha256::digest`: the digest of the string's UTF-8
/// bytes, which is 32 bytes long.
#[verifier::external_body]
fn sha256(s: &str) -> (r: Vec<u8>)
    ensures
        r@ == sha256_of(s@),
        r@.len() == 32,
{
    <sha2::Sha256 as sha2::Digest>::digest(s.as_bytes()).to_vec()
}

/// Relies on `std::path::Path::exists`: whether a file is there depends on
/// the disk, so nothing is promised of the answer.
#[verifier::external_body]
fn path_exists(path: &str) -> (r: bool) {
    std::path::Path::new(path).exists()
}

/// A cache directory and the extension of its files.
pub struct Cache {
    pub dir: String,
    pub ext: String,
}

impl Cache {
    /// The file name of `key`: its digest in lower-case hexadecimal and the
    /// extension.
    pub open spec fn filename_of(self, key: Seq<char>) -> Seq<char> {
        hex_of(sha256_of(key)) + "."@ + self.ext@
    }

    /// The path of the file that holds the body cached under `key`.
    pub open spec fn path_of(self, key: Seq<char>) -> Seq<char> {
        self.dir@ + "/"@ + self.filename_of(key)
    }

    /// The cache named `name` under `base_dir`, in its subdirectory
    /// `cache/<name>`, whose files end in `ext`.
    pub fn new(base_dir: &str, name: &str, ext: &str) -> (r: Self)
        ensures
            r.dir@ == base_dir@ + "/cache/"@ + name@,
            r.ext@ == ext@,
    {
        let dir: String = String::from_str(base_dir).concat("/cache/").concat(name);
        Cache { dir, ext: String::from_str(ext) }
    }

    /// The file name of `key`: its digest in lower-case hexadecimal, 64
    /// digits, and the extension.
    pub fn filename(&self, key: &str) -> (r: String)
        ensures
            r@ == self.filename_of(key@),
            r@.len() == 65 + self.ext@.len(),
    {
        let digest: Vec<u8> = sha256(key);
        proof {
            reveal_strlit(".");
        }
        let r = hex(&digest).concat(".").concat(self.ext.as_str());
        r
    }

    /// The path of the file that holds the body cached under `key`.
    pub fn path(&self, key: &str) -> (r: String)
        ensures
            r@ == self.path_of(key@),
            r@.len() == self.dir@.len() + 66 + self.ext@.len(),
    {
        proof {
            reveal_strlit("/");
        }
        let r = self.dir.clone().concat("/").concat(self.filename(key).as_str());
        assert(r@ =~= self.path_of(key@));
        r
    }

    /// Whether a body is cached under `key`: whether its file is on disk.
    pub fn has(&self, key: &str) -> (r: bool) {
        path_exists(self.path(key).as_str())
    }
}

} // verus!
