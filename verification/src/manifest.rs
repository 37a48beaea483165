//! The workspace manifest: the small file that records which remote script a
//! local directory mirrors.
//!
//! The manifest's whole content is one key, `id = "<script id>"`, optionally
//! followed by a trailing newline (the form this library itself writes). The
//! codec here is total and injective: encoding any id and parsing it back
//! yields the same id, and a text parses only if it is exactly such a line.

use vstd::prelude::*;

verus! {

/// The manifest of a workspace: the id of the remote script the directory
/// mirrors.
#[derive(Clone, Debug)]
pub struct HomescriptMetadata {
    pub id: String,
}

/// The characters before the id: `id = "`.
pub open spec fn manifest_prefix() -> Seq<char> {
    seq!['i', 'd', ' ', '=', ' ', '"']
}

/// A manifest line without a trailing newline: `id = "<id>"`.
pub open spec fn manifest_line(id: Seq<char>) -> Seq<char> {
    manifest_prefix() + id + seq!['"']
}

/// The manifest text this library writes: `id = "<id>"` plus a newline.
pub open spec fn manifest_text(id: Seq<char>) -> Seq<char> {
    manifest_line(id) + seq!['\n']
}

/// Whether `text` is a well-formed manifest, and for which id.
pub open spec fn is_manifest_for(text: Seq<char>, id: Seq<char>) -> bool {
    text == manifest_text(id) || text == manifest_line(id)
}

/// The name of the manifest file inside a workspace directory.
pub fn manifest_file_name() -> (r: &'static str)
    ensures
        r@ == ".hms.toml"@,
{
    ".hms.toml"
}

/// The name of the code file inside a workspace directory: `<id>.hms`.
pub fn code_file_name(id: &str) -> (r: String)
    ensures
        r@ == id@ + ".hms"@,
{
    let mut s = String::new();
    s.append(id);
    s.append(".hms");
    s
}

/// Renders the manifest for `meta`, exactly as [`parse_manifest`] reads it
/// back.
pub fn encode_manifest(meta: &HomescriptMetadata) -> (r: String)
    ensures
        r@ == manifest_text(meta.id@),
{
    let mut s = String::new();
    s.append("id = \"");
    s.append(meta.id.as_str());
    s.append("\"\n");
    proof {
        reveal_strlit("id = \"");
        reveal_strlit("\"\n");
        assert(s@ =~= manifest_text(meta.id@));
    }
    s
}

/// Parses a manifest. Succeeds exactly on the texts [`encode_manifest`]
/// produces, with or without the trailing newline, and recovers the id.
pub fn parse_manifest(text: &str) -> (r: Option<HomescriptMetadata>)
    ensures
        match r {
            Some(meta) => is_manifest_for(text@, meta.id@),
            None => forall|id: Seq<char>| !is_manifest_for(text@, id),
        },
{
    proof {
        reveal_strlit("id = \"");
    }
    let n = text.unicode_len();
    if n < 7 {
        return None;
    }
    let prefix = "id = \"";
    let mut i: usize = 0;
    while i < 6
        invariant
            i <= 6,
            n == text@.len(),
            n >= 7,
            prefix@ == manifest_prefix(),
            forall|j: int| 0 <= j < i ==> text@[j] == manifest_prefix()[j],
        decreases 6 - i,
    {
        if text.get_char(i) != prefix.get_char(i) {
            proof {
                assert forall|id: Seq<char>| !is_manifest_for(text@, id) by {
                    assert(manifest_text(id)[i as int] == manifest_prefix()[i as int]);
                    assert(manifest_line(id)[i as int] == manifest_prefix()[i as int]);
                }
            }
            return None;
        }
        i = i + 1;
    }
    let last = text.get_char(n - 1);
    if last == '\n' {
        if n < 8 || text.get_char(n - 2) != '"' {
            proof {
                assert forall|id: Seq<char>| !is_manifest_for(text@, id) by {
                    if text@ == manifest_text(id) {
                        assert(text@.len() == 8 + id.len());
                        assert(text@[text@.len() - 2] == '"');
                    }
                    if text@ == manifest_line(id) {
                        assert(text@[text@.len() - 1] == '"');
                    }
                }
            }
            return None;
        }
        let id = text.substring_char(6, n - 2).to_owned();
        proof {
            assert(text@ =~= manifest_text(id@));
        }
        Some(HomescriptMetadata { id })
    } else if last == '"' {
        let id = text.substring_char(6, n - 1).to_owned();
        proof {
            assert(text@ =~= manifest_line(id@));
        }
        Some(HomescriptMetadata { id })
    } else {
        proof {
            assert forall|id: Seq<char>| !is_manifest_for(text@, id) by {
                if text@ == manifest_text(id) {
                    assert(text@[text@.len() - 1] == '\n');
                }
                if text@ == manifest_line(id) {
                    assert(text@[text@.len() - 1] == '"');
                }
            }
        }
        None
    }
}

/// A text is the manifest of at most one id, and the newline and bare forms
/// never coincide: parsing is the exact inverse of encoding.
pub proof fn lemma_manifest_injective(a: Seq<char>, b: Seq<char>)
    ensures
        manifest_text(a) == manifest_text(b) ==> a == b,
        manifest_line(a) == manifest_line(b) ==> a == b,
        manifest_text(a) != manifest_line(b),
{
    assert(manifest_text(a).len() == 8 + a.len());
    assert(manifest_text(b).len() == 8 + b.len());
    assert(manifest_line(a).len() == 7 + a.len());
    assert(manifest_line(b).len() == 7 + b.len());
    if manifest_text(a) == manifest_text(b) {
        assert(a.len() == b.len());
        assert(a =~= b) by {
            assert forall|j: int| 0 <= j < a.len() implies a[j] == b[j] by {
                assert(manifest_text(a)[j + 6] == a[j]);
                assert(manifest_text(b)[j + 6] == b[j]);
            }
        }
    }
    if manifest_line(a) == manifest_line(b) {
        assert(a.len() == b.len());
        assert(a =~= b) by {
            assert forall|j: int| 0 <= j < a.len() implies a[j] == b[j] by {
                assert(manifest_line(a)[j + 6] == a[j]);
                assert(manifest_line(b)[j + 6] == b[j]);
            }
        }
    }
    if manifest_text(a) == manifest_line(b) {
        let n = manifest_text(a).len();
        assert(manifest_text(a)[n - 1] == '\n');
        assert(manifest_line(b)[n - 1] == '"');
        assert(false);
    }
}

} // verus!
