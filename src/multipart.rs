use vstd::prelude::*;

use crate::config::BackendKind;
use crate::errors::{error_message, error_text};
use crate::path::ObjectPath;

verus! {

/// The parts of a multipart upload: part number to eTag, kept in ascending
/// order of part number.
pub struct PartTable {
    parts: Vec<(i32, String)>,
    map: Ghost<Map<i32, Seq<char>>>,
}

impl View for PartTable {
    type V = Map<i32, Seq<char>>;

    closed spec fn view(&self) -> Map<i32, Seq<char>> {
        self.map@
    }
}

/// The manifest that completes an upload of parts `m`: each part once, in
/// ascending order of part number, with its eTag.
pub open spec fn is_manifest_of(r: Seq<(i32, String)>, m: Map<i32, Seq<char>>) -> bool {
    &&& forall|i: int, j: int| 0 <= i < j < r.len() ==> #[trigger] r[i].0 < #[trigger] r[j].0
    &&& forall|i: int|
        0 <= i < r.len() ==> #[trigger] m.contains_key(r[i].0) && m[r[i].0] == r[i].1@
    &&& forall|k: i32| #[trigger] m.contains_key(k) ==> exists|i: int| 0 <= i < r.len() && r[i].0 == k
}

/// The parts named by a list of `(part number, eTag)` pairs, a later pair
/// for a number replacing an earlier one.
pub open spec fn pairs_map(pairs: Seq<(i32, String)>) -> Map<i32, Seq<char>>
    decreases pairs.len(),
{
    if pairs.len() == 0 {
        Map::empty()
    } else {
        pairs_map(pairs.drop_last()).insert(pairs.last().0, pairs.last().1@)
    }
}

impl PartTable {
    pub closed spec fn wf(&self) -> bool {
        is_manifest_of(self.parts@, self.map@)
    }

    /// A table without parts.
    pub fn new() -> (r: Self)
        ensures
            r.wf(),
            r@ == Map::<i32, Seq<char>>::empty(),
    {
        PartTable { parts: Vec::new(), map: Ghost(Map::empty()) }
    }

    /// Records that part `part` was uploaded with eTag `etag`; a part
    /// uploaded again keeps only its last eTag.
    pub fn record(&mut self, part: i32, etag: String)
        requires
            old(self).wf(),
        ensures
            final(self).wf(),
            final(self)@ == old(self)@.insert(part, etag@),
    {
        let ghost e = etag@;
        let n = self.parts.len();
        let mut i: usize = 0;
        while i < n && self.parts[i].0 < part
            invariant
                n == self.parts@.len(),
                i <= n,
                forall|j: int| 0 <= j < i ==> #[trigger] self.parts@[j].0 < part,
            decreases n - i,
        {
            i += 1;
        }
        let ghost old_parts = self.parts@;
        let ghost new_map = self.map@.insert(part, e);
        if i < n && self.parts[i].0 == part {
            self.parts.set(i, (part, etag));
            self.map = Ghost(new_map);
            proof {
                assert forall|k: i32| #[trigger] self.map@.contains_key(k) implies exists|q: int|
                    0 <= q < self.parts@.len() && self.parts@[q].0 == k by {
                    if k == part {
                        assert(self.parts@[i as int].0 == k);
                    } else {
                        assert(old(self).map@.contains_key(k));
                        let q = choose|q: int| 0 <= q < old_parts.len() && old_parts[q].0 == k;
                        assert(self.parts@[q].0 == k);
                    }
                }
            }
        } else {
            self.parts.insert(i, (part, etag));
            self.map = Ghost(new_map);
            proof {
                assert forall|a: int, b: int| 0 <= a < b < self.parts@.len() implies #[trigger] self.parts@[a].0
                    < #[trigger] self.parts@[b].0 by {
                    if a < i && b < i {
                        assert(self.parts@[a] == old_parts[a] && self.parts@[b] == old_parts[b]);
                    } else if a < i && b == i {
                        assert(self.parts@[a] == old_parts[a]);
                    } else if a < i {
                        assert(self.parts@[a] == old_parts[a] && self.parts@[b] == old_parts[b - 1]);
                        assert(old_parts[i as int].0 >= part);
                        if b - 1 > i {
                            assert(old_parts[i as int].0 < old_parts[b - 1].0);
                        }
                    } else if a == i {
                        assert(self.parts@[b] == old_parts[b - 1]);
                        assert(old_parts[i as int].0 > part);
                        if b - 1 > i {
                            assert(old_parts[i as int].0 < old_parts[b - 1].0);
                        }
                    } else {
                        assert(self.parts@[a] == old_parts[a - 1] && self.parts@[b] == old_parts[b - 1]);
                    }
                }
                assert forall|q: int| 0 <= q < self.parts@.len() implies #[trigger] self.map@.contains_key(
                    self.parts@[q].0,
                ) && self.map@[self.parts@[q].0] == self.parts@[q].1@ by {
                    if q < i {
                        assert(self.parts@[q] == old_parts[q]);
                        assert(old_parts[q].0 != part);
                        assert(old(self).map@.contains_key(old_parts[q].0));
                    } else if q > i {
                        assert(self.parts@[q] == old_parts[q - 1]);
                        assert(old_parts[i as int].0 > part);
                        if q - 1 > i {
                            assert(old_parts[i as int].0 < old_parts[q - 1].0);
                        }
                        assert(old(self).map@.contains_key(old_parts[q - 1].0));
                    } else {
                        assert(self.parts@[q].0 == part && self.parts@[q].1@ == e);
                    }
                }
                assert forall|k: i32| #[trigger] self.map@.contains_key(k) implies exists|q: int|
                    0 <= q < self.parts@.len() && self.parts@[q].0 == k by {
                    if k == part {
                        assert(self.parts@[i as int].0 == k);
                    } else {
                        assert(old(self).map@.contains_key(k));
                        let q = choose|q: int| 0 <= q < old_parts.len() && old_parts[q].0 == k;
                        if q < i {
                            assert(self.parts@[q].0 == k);
                        } else {
                            assert(self.parts@[q + 1].0 == k);
                        }
                    }
                }
            }
        }
    }

    /// The parts named by `pairs`, a later pair for a number replacing an
    /// earlier one.
    pub fn from_pairs(pairs: &Vec<(i32, String)>) -> (r: Self)
        ensures
            r.wf(),
            r@ == pairs_map(pairs@),
    {
        let mut t = PartTable::new();
        let mut i: usize = 0;
        while i < pairs.len()
            invariant
                i <= pairs@.len(),
                t.wf(),
                t@ == pairs_map(pairs@.subrange(0, i as int)),
            decreases pairs@.len() - i,
        {
            t.record(pairs[i].0, pairs[i].1.clone());
            i += 1;
            assert(pairs@.subrange(0, i as int).drop_last() =~= pairs@.subrange(0, i - 1));
        }
        assert(pairs@.subrange(0, pairs@.len() as int) =~= pairs@);
        t
    }

    /// The completion manifest: every part once, in ascending order of part
    /// number, with its last eTag.
    pub fn manifest(&self) -> (r: Vec<(i32, String)>)
        requires
            self.wf(),
        ensures
            is_manifest_of(r@, self@),
    {
        let mut out: Vec<(i32, String)> = Vec::new();
        let mut i: usize = 0;
        while i < self.parts.len()
            invariant
                i <= self.parts@.len(),
                out@ == self.parts@.subrange(0, i as int),
            decreases self.parts@.len() - i,
        {
            out.push((self.parts[i].0, self.parts[i].1.clone()));
            i += 1;
            assert(out@ =~= self.parts@.subrange(0, i as int));
        }
        assert(out@ =~= self.parts@);
        out
    }
}

/// Uploading one part number twice leaves the eTag of the second upload:
/// the manifest then names that part once, with the second eTag.
pub proof fn law_last_upload_of_a_part_wins(
    parts: Map<i32, Seq<char>>,
    part: i32,
    first: Seq<char>,
    second: Seq<char>,
    manifest: Seq<(i32, String)>,
)
    requires
        is_manifest_of(manifest, parts.insert(part, first).insert(part, second)),
    ensures
        parts.insert(part, first).insert(part, second) == parts.insert(part, second),
        exists|i: int| 0 <= i < manifest.len() && manifest[i].0 == part && manifest[i].1@ == second,
        forall|i: int, j: int|
            0 <= i < manifest.len() && 0 <= j < manifest.len() && manifest[i].0 == part
                && manifest[j].0 == part ==> i == j,
{
    let m = parts.insert(part, first).insert(part, second);
    assert(m =~= parts.insert(part, second));
    assert(m.contains_key(part));
    let i = choose|i: int| 0 <= i < manifest.len() && manifest[i].0 == part;
    assert(manifest[i].1@ == m[manifest[i].0]);
    assert forall|a: int, b: int|
        0 <= a < manifest.len() && 0 <= b < manifest.len() && manifest[a].0 == part
            && manifest[b].0 == part implies a == b by {
        if a < b {
            assert(manifest[a].0 < manifest[b].0);
        } else if b < a {
            assert(manifest[b].0 < manifest[a].0);
        }
    }
}

/// The parts that a completion names are exactly those of the pairs that
/// the part uploads returned, each with the eTag of its last upload: a part
/// number is in the manifest if and only if some upload returned it.
pub proof fn law_manifest_names_uploaded_parts(pairs: Seq<(i32, String)>, manifest: Seq<(i32, String)>)
    requires
        is_manifest_of(manifest, pairs_map(pairs)),
    ensures
        forall|j: int|
            0 <= j < pairs.len() ==> exists|i: int|
                0 <= i < manifest.len() && manifest[i].0 == #[trigger] pairs[j].0,
        forall|i: int|
            0 <= i < manifest.len() ==> exists|j: int|
                0 <= j < pairs.len() && pairs[j].0 == #[trigger] manifest[i].0 && pairs[j].1@
                    == manifest[i].1@ && forall|l: int| j < l < pairs.len() ==> pairs[l].0 != pairs[j].0,
{
    lemma_pairs_map(pairs);
    assert forall|j: int| 0 <= j < pairs.len() implies exists|i: int|
        0 <= i < manifest.len() && manifest[i].0 == #[trigger] pairs[j].0 by {
        assert(pairs_map(pairs).contains_key(pairs[j].0));
    }
    assert forall|i: int| 0 <= i < manifest.len() implies exists|j: int|
        0 <= j < pairs.len() && pairs[j].0 == #[trigger] manifest[i].0 && pairs[j].1@
            == manifest[i].1@ && forall|l: int| j < l < pairs.len() ==> pairs[l].0 != pairs[j].0 by {
        assert(pairs_map(pairs).contains_key(manifest[i].0));
    }
}

/// What `pairs_map` holds: a number is present when some pair names it, and
/// its eTag is that of the last such pair.
proof fn lemma_pairs_map(pairs: Seq<(i32, String)>)
    ensures
        forall|k: i32|
            #[trigger] pairs_map(pairs).contains_key(k) <==> exists|j: int|
                0 <= j < pairs.len() && pairs[j].0 == k,
        forall|k: i32|
            #[trigger] pairs_map(pairs).contains_key(k) ==> exists|j: int|
                0 <= j < pairs.len() && pairs[j].0 == k && pairs[j].1@ == pairs_map(pairs)[k]
                    && forall|l: int| j < l < pairs.len() ==> pairs[l].0 != k,
    decreases pairs.len(),
{
    if pairs.len() > 0 {
        let init = pairs.drop_last();
        lemma_pairs_map(init);
        let n = pairs.len() - 1;
        assert forall|k: i32| #[trigger] pairs_map(pairs).contains_key(k) <==> exists|j: int|
            0 <= j < pairs.len() && pairs[j].0 == k by {
            if exists|j: int| 0 <= j < pairs.len() && pairs[j].0 == k {
                let j = choose|j: int| 0 <= j < pairs.len() && pairs[j].0 == k;
                if j < n {
                    assert(init[j].0 == k);
                }
            }
            if pairs_map(init).contains_key(k) {
                let j = choose|j: int| 0 <= j < init.len() && init[j].0 == k;
                assert(pairs[j].0 == k);
            }
        }
        assert forall|k: i32| #[trigger] pairs_map(pairs).contains_key(k) implies exists|j: int|
            0 <= j < pairs.len() && pairs[j].0 == k && pairs[j].1@ == pairs_map(pairs)[k]
                && forall|l: int| j < l < pairs.len() ==> pairs[l].0 != k by {
            if k == pairs[n].0 {
                assert(0 <= n < pairs.len() && pairs[n].0 == k && pairs[n].1@ == pairs_map(pairs)[k]);
            } else {
                assert(pairs_map(init).contains_key(k));
                let j = choose|j: int|
                    0 <= j < init.len() && init[j].0 == k && init[j].1@ == pairs_map(init)[k]
                        && forall|l: int| j < l < init.len() ==> init[l].0 != k;
                assert(pairs[j] == init[j]);
                assert forall|l: int| j < l < pairs.len() implies pairs[l].0 != k by {
                    if l < n {
                        assert(pairs[l] == init[l]);
                    }
                }
            }
        }
    }
}

/// The result of an S3 call that answers with a text (an upload id, an
/// eTag): the text, or the error message. `what` names the text for the
/// message when the answer lacks it.
pub fn text_outcome(response: Result<Option<String>, String>, what: &str) -> (r: Result<String, String>)
    ensures
        response matches Ok(Some(t)) ==> r == Ok::<String, String>(t),
        response matches Ok(None) ==> (r matches Err(m) && m@ == error_text(
            BackendKind::S3,
            "missing "@ + what@,
        )),
        response matches Err(e) ==> (r matches Err(m) && m@ == error_text(BackendKind::S3, e@)),
{
    match response {
        Ok(Some(t)) => Ok(t),
        Ok(None) => {
            let detail = String::from_str("missing ").concat(what);
            Err(error_message(BackendKind::S3, detail.as_str()))
        },
        Err(e) => Err(error_message(BackendKind::S3, e.as_str())),
    }
}

/// A result handed to callers that take one string: the value, or the
/// error message, which begins with the backend's prefix.
pub fn flatten_text(r: Result<String, String>) -> (s: String)
    ensures
        r matches Ok(t) ==> s@ == t@,
        r matches Err(m) ==> s@ == m@,
{
    match r {
        Ok(t) => t,
        Err(m) => m,
    }
}

/// A multipart upload in progress: the object, the upload id that the
/// backend gave, and the parts uploaded so far. Completing or aborting the
/// upload consumes the session, so it cannot be used afterwards.
pub struct MultipartSession {
    target: ObjectPath,
    upload_id: String,
    parts: PartTable,
}

impl MultipartSession {
    /// The object, as container and key.
    pub closed spec fn target(&self) -> (Seq<char>, Seq<char>) {
        self.target.view_pair()
    }

    pub closed spec fn upload_id(&self) -> Seq<char> {
        self.upload_id@
    }

    /// The parts uploaded so far, with their last eTags.
    pub closed spec fn parts(&self) -> Map<i32, Seq<char>> {
        self.parts@
    }

    pub closed spec fn wf(&self) -> bool {
        self.parts.wf()
    }

    /// Opens a session on `target` from the answer to the create call: a
    /// session without parts, or the error message.
    pub fn begin(target: ObjectPath, response: Result<Option<String>, String>) -> (r: Result<
        MultipartSession,
        String,
    >)
        ensures
            response matches Ok(Some(id)) ==> (r matches Ok(s) && s.wf() && s.target()
                == target.view_pair() && s.upload_id() == id@ && s.parts() == Map::<
                i32,
                Seq<char>,
            >::empty()),
            response matches Ok(None) ==> (r matches Err(m) && m@ == error_text(
                BackendKind::S3,
                "missing upload id"@,
            )),
            response matches Err(e) ==> (r matches Err(m) && m@ == error_text(BackendKind::S3, e@)),
    {
        match text_outcome(response, "upload id") {
            Ok(id) => Ok(MultipartSession { target, upload_id: id, parts: PartTable::new() }),
            Err(m) => {
                proof {
                    reveal_strlit("missing ");
                    reveal_strlit("upload id");
                    reveal_strlit("missing upload id");
                    assert("missing "@ + "upload id"@ =~= "missing upload id"@);
                }
                Err(m)
            },
        }
    }

    /// The object and the upload id, for the calls that upload parts.
    pub fn destination(&self) -> (r: (&ObjectPath, &str))
        ensures
            r.0.view_pair() == self.target(),
            r.1@ == self.upload_id(),
    {
        (&self.target, self.upload_id.as_str())
    }

    /// Records the eTag that uploading part `part` returned.
    pub fn record_part(&mut self, part: i32, etag: String)
        requires
            old(self).wf(),
        ensures
            final(self).wf(),
            final(self).target() == old(self).target(),
            final(self).upload_id() == old(self).upload_id(),
            final(self).parts() == old(self).parts().insert(part, etag@),
    {
        self.parts.record(part, etag);
    }

    /// Ends the upload with the completion call: the object, the upload id
    /// and the manifest of the uploaded parts.
    pub fn complete(self) -> (r: (ObjectPath, String, Vec<(i32, String)>))
        requires
            self.wf(),
        ensures
            r.0.view_pair() == self.target(),
            r.1@ == self.upload_id(),
            is_manifest_of(r.2@, self.parts()),
    {
        let manifest = self.parts.manifest();
        (self.target, self.upload_id, manifest)
    }

    /// Ends the upload without completing it: the object and the upload id
    /// for the call that discards the uploaded parts.
    pub fn abort(self) -> (r: (ObjectPath, String))
        ensures
            r.0.view_pair() == self.target(),
            r.1@ == self.upload_id(),
    {
        (self.target, self.upload_id)
    }
}

} // verus!
