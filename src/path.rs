use vstd::prelude::*;

use crate::config::BackendKind;
use crate::errors::{bad_path_message, bad_path_text, error_text};

verus! {

/// `i` is the position of the first `/` in `s`.
pub open spec fn is_first_slash(s: Seq<char>, i: int) -> bool {
    &&& 0 <= i < s.len()
    &&& s[i] == '/'
    &&& forall|j: int| 0 <= j < i ==> s[j] != '/'
}

/// A path `"<container>/<key>"` split on its first `/`; `None` for a path
/// without `/`.
pub open spec fn split_path(s: Seq<char>) -> Option<(Seq<char>, Seq<char>)> {
    if exists|i: int| is_first_slash(s, i) {
        let i = choose|i: int| is_first_slash(s, i);
        Some((s.subrange(0, i), s.subrange(i + 1, s.len() as int)))
    } else {
        None
    }
}

/// An object of a store: the container (bucket) and the key inside it.
pub struct ObjectPath {
    pub container: String,
    pub key: String,
}

impl ObjectPath {
    /// The pair of views that `split_path` speaks of.
    pub open spec fn view_pair(&self) -> (Seq<char>, Seq<char>) {
        (self.container@, self.key@)
    }
}

/// Splits `path` on its first `/` into container and key.
pub fn parse_object_path(path: &str) -> (r: Option<ObjectPath>)
    ensures
        r is None <==> split_path(path@) is None,
        r matches Some(p) ==> split_path(path@) == Some(p.view_pair()),
        r is None <==> !path@.contains('/'),
        r matches Some(p) ==> path@ == p.container@ + seq!['/'] + p.key@ && !p.container@.contains(
            '/',
        ),
{
    let n = path.unicode_len();
    let mut i: usize = 0;
    while i < n
        invariant
            n == path@.len(),
            i <= n,
            forall|j: int| 0 <= j < i ==> path@[j] != '/',
        decreases n - i,
    {
        if path.get_char(i) == '/' {
            let container = path.substring_char(0, i);
            let key = path.substring_char(i + 1, n);
            let ghost s = path@;
            proof {
                assert(is_first_slash(s, i as int));
                let k = choose|k: int| is_first_slash(s, k);
                if k < i {
                    assert(s[k] != '/');
                } else if k > i {
                    assert(s[i as int] != '/');
                }
                assert(s =~= container@ + seq!['/'] + key@);
                assert(!container@.contains('/')) by {
                    if container@.contains('/') {
                        let m = choose|m: int| 0 <= m < container@.len() && container@[m] == '/';
                        assert(s[m] == '/');
                    }
                }
            }
            return Some(ObjectPath { container: String::from_str(container), key: String::from_str(key) });
        }
        i += 1;
    }
    proof {
        assert(!(exists|k: int| is_first_slash(path@, k)));
        assert(!path@.contains('/'));
    }
    None
}

/// The object that a call on `path` addresses, or the malformed-path
/// message of `kind`.
pub fn object_target(kind: BackendKind, path: &str) -> (r: Result<ObjectPath, String>)
    ensures
        split_path(path@) is None ==> (r matches Err(m) && m@ == error_text(kind, bad_path_text())),
        split_path(path@) matches Some(pair) ==> (r matches Ok(p) && p.view_pair() == pair),
{
    match parse_object_path(path) {
        None => Err(bad_path_message(kind)),
        Some(p) => Ok(p),
    }
}

} // verus!
