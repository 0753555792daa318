//! File name handling: the extension of an uploaded file's name, and the
//! storage paths built for an accepted source.

use vstd::prelude::*;
use vstd::string::*;

verus! {

/// The characters after the last `'.'` of `s`; all of `s` when it holds no
/// `'.'` (splitting on `'.'` and keeping the last piece).
pub open spec fn file_ext_of(s: Seq<char>) -> Seq<char>
    decreases s.len(),
{
    if s.len() == 0 {
        s
    } else if s.last() == '.' {
        Seq::empty()
    } else {
        file_ext_of(s.drop_last()).push(s.last())
    }
}

/// When the last `'.'` of `s` stands at `d`, the extension is exactly what
/// follows it.
pub proof fn lemma_file_ext_after_dot(s: Seq<char>, d: int)
    requires
        0 <= d < s.len(),
        s[d] == '.',
        forall|k: int| d < k < s.len() ==> s[k] != '.',
    ensures
        file_ext_of(s) =~= s.subrange(d + 1, s.len() as int),
    decreases s.len(),
{
    if d == s.len() - 1 {
    } else {
        assert(s.last() != '.');
        lemma_file_ext_after_dot(s.drop_last(), d);
        assert(file_ext_of(s) =~= s.drop_last().subrange(d + 1, s.len() - 1).push(s.last()));
    }
}

/// A name without any `'.'` is its own extension.
pub proof fn lemma_file_ext_no_dot(s: Seq<char>)
    requires
        forall|k: int| 0 <= k < s.len() ==> s[k] != '.',
    ensures
        file_ext_of(s) =~= s,
    decreases s.len(),
{
    if s.len() > 0 {
        lemma_file_ext_no_dot(s.drop_last());
    }
}

/// The last piece of `filepath` split on `'.'`: the uploaded file's
/// extension, or the whole name when it holds no dot.
pub fn get_file_ext_from_path(filepath: &str) -> (r: &str)
    ensures
        r@ =~= file_ext_of(filepath@),
{
    let len = filepath.unicode_len();
    let mut i: usize = len;
    while i > 0
        invariant
            len == filepath@.len(),
            0 <= i <= len,
            forall|k: int| i <= k < len ==> filepath@[k] != '.',
        decreases i,
    {
        let c = filepath.get_char(i - 1);
        if c == '.' {
            proof {
                lemma_file_ext_after_dot(filepath@, i - 1);
            }
            return filepath.substring_char(i, len);
        }
        i = i - 1;
    }
    proof {
        lemma_file_ext_no_dot(filepath@);
    }
    filepath
}

/// `{id}.{ext}`: the stored file's name, the externally reported result of a
/// successful unit.
pub fn filename_with_ext(id: &str, ext: &str) -> (r: String)
    ensures
        r@ =~= id@ + "."@ + ext@,
{
    let mut s = String::from_str(id);
    s.append(".");
    s.append(ext);
    s
}

/// `{dir}/{name}`: where a file called `name` is stored under the configured
/// directory.
pub fn path_in_dir(dir: &str, name: &str) -> (r: String)
    ensures
        r@ =~= dir@ + "/"@ + name@,
{
    let mut s = String::from_str(dir);
    s.append("/");
    s.append(name);
    s
}

/// `{dir}/preview_{id}.jpg`: where the derived thumbnail of the artifact
/// named by `id` is stored. Thumbnails are always encoded as JPEG.
pub fn preview_path(dir: &str, id: &str) -> (r: String)
    ensures
        r@ =~= dir@ + "/preview_"@ + id@ + ".jpg"@,
{
    let mut s = String::from_str(dir);
    s.append("/preview_");
    s.append(id);
    s.append(".jpg");
    s
}

/// Splitting `{id}.{ext}` back on its last dot recovers `ext`, as long as the
/// id holds no `'.'` — which generated ids never do — and `ext` holds none
/// either.
pub proof fn lemma_filename_ext_round_trip(id: Seq<char>, ext: Seq<char>)
    requires
        forall|k: int| 0 <= k < id.len() ==> id[k] != '.',
        forall|k: int| 0 <= k < ext.len() ==> ext[k] != '.',
    ensures
        file_ext_of(id + "."@ + ext) =~= ext,
{
    reveal_strlit(".");
    let s = id + "."@ + ext;
    assert(s[id.len() as int] == '.');
    assert forall|k: int| id.len() < k < s.len() implies s[k] != '.' by {
        assert(s[k] == ext[k - id.len() - 1]);
    }
    lemma_file_ext_after_dot(s, id.len() as int);
    assert(s.subrange(id.len() as int + 1, s.len() as int) =~= ext);
}

} // verus!
