//! File-name arithmetic for the pipeline: extensions, the intermediate
//! upscaled name, and the final converted name.

use vstd::prelude::*;
use vstd::string::StrSliceExecFns;
use vstd::string::StringExecFns;

verus! {

/// Index of the last '.' in `s`, or -1 when `s` holds none.
pub open spec fn last_dot(s: Seq<char>) -> int
    decreases s.len(),
{
    if s.len() == 0 {
        -1
    } else if s[s.len() - 1] == '.' {
        s.len() - 1
    } else {
        last_dot(s.drop_last())
    }
}

/// The extension of a file name: what follows the last '.', or empty
/// when the name holds no '.'.
pub open spec fn spec_extension(s: Seq<char>) -> Seq<char> {
    if last_dot(s) >= 0 {
        s.subrange(last_dot(s) + 1, s.len() as int)
    } else {
        Seq::empty()
    }
}

/// The name with its extension replaced by `new_ext`: everything after
/// the last '.' is dropped and `new_ext` appended; a name without a '.'
/// gets ".new_ext" appended whole.
pub open spec fn spec_replace_extension(name: Seq<char>, new_ext: Seq<char>) -> Seq<char> {
    if last_dot(name) >= 0 {
        name.subrange(0, last_dot(name)) + seq!['.'] + new_ext
    } else {
        name + seq!['.'] + new_ext
    }
}

/// A texture image name: its extension is "png" or "jpg".
pub open spec fn spec_has_image_ext(s: Seq<char>) -> bool {
    spec_extension(s) == "png"@ || spec_extension(s) == "jpg"@
}

pub proof fn lemma_last_dot_bounds(s: Seq<char>)
    ensures
        -1 <= last_dot(s) < s.len(),
        last_dot(s) >= 0 ==> s[last_dot(s)] == '.',
    decreases s.len(),
{
    if s.len() > 0 && s[s.len() - 1] != '.' {
        lemma_last_dot_bounds(s.drop_last());
    }
}

/// When every position from `i` on holds no '.', the last dot of `s`
/// lies in the prefix before `i`.
proof fn lemma_last_dot_prefix(s: Seq<char>, i: int)
    requires
        0 <= i <= s.len(),
        forall|j: int| i <= j < s.len() ==> s[j] != '.',
    ensures
        last_dot(s) == last_dot(s.subrange(0, i)),
    decreases s.len() - i,
{
    if i == s.len() {
        assert(s.subrange(0, i) =~= s);
    } else {
        assert(s[s.len() - 1] != '.');
        assert(s.drop_last() =~= s.subrange(0, s.len() - 1));
        lemma_last_dot_prefix(s.drop_last(), i);
        assert(s.drop_last().subrange(0, i) =~= s.subrange(0, i));
    }
}

/// When position `i` holds a '.' and no later position does, the last
/// dot of `s` is at `i`.
pub proof fn lemma_last_dot_at(s: Seq<char>, i: int)
    requires
        0 <= i < s.len(),
        s[i] == '.',
        forall|j: int| i < j < s.len() ==> s[j] != '.',
    ensures
        last_dot(s) == i,
    decreases s.len(),
{
    if i == s.len() - 1 {
    } else {
        assert(s.drop_last() =~= s.subrange(0, s.len() - 1));
        lemma_last_dot_at(s.drop_last(), i);
    }
}

/// The last dot of a concatenation whose right part holds a dot is the
/// right part's last dot, shifted.
pub proof fn lemma_last_dot_append(a: Seq<char>, b: Seq<char>)
    requires
        last_dot(b) >= 0,
    ensures
        last_dot(a + b) == a.len() + last_dot(b),
    decreases b.len(),
{
    lemma_last_dot_bounds(b);
    if b[b.len() - 1] == '.' {
        assert((a + b)[(a + b).len() - 1] == '.');
    } else {
        assert((a + b)[(a + b).len() - 1] == b[b.len() - 1]);
        assert((a + b).drop_last() =~= a + b.drop_last());
        lemma_last_dot_append(a, b.drop_last());
    }
}

/// Find the position of the last '.' in `s`, if any.
pub fn find_last_dot(s: &str) -> (r: Option<usize>)
    ensures
        match r {
            Some(i) => last_dot(s@) == i as int,
            None => last_dot(s@) == -1,
        },
{
    let mut i: usize = s.unicode_len();
    loop
        invariant
            i <= s@.len(),
            forall|j: int| i <= j < s@.len() ==> s@[j] != '.',
        decreases i,
    {
        if i == 0 {
            proof {
                lemma_last_dot_prefix(s@, 0);
                assert(s@.subrange(0, 0) =~= Seq::<char>::empty());
            }
            return None;
        }
        i = i - 1;
        if s.get_char(i) == '.' {
            proof {
                lemma_last_dot_at(s@, i as int);
            }
            return Some(i);
        }
    }
}

/// Compare two strings character by character.
pub fn str_eq(a: &str, b: &str) -> (r: bool)
    ensures
        r == (a@ == b@),
{
    let an = a.unicode_len();
    let bn = b.unicode_len();
    if an != bn {
        return false;
    }
    let mut i: usize = 0;
    while i < an
        invariant
            0 <= i <= an,
            an == a@.len(),
            bn == b@.len(),
            an == bn,
            forall|j: int| 0 <= j < i ==> a@[j] == b@[j],
        decreases an - i,
    {
        if a.get_char(i) != b.get_char(i) {
            return false;
        }
        i = i + 1;
    }
    proof {
        assert(a@ =~= b@);
    }
    true
}

/// The extension of `name`, as a fresh string; empty when `name` has
/// no '.'.
pub fn extension_of(name: &str) -> (r: String)
    ensures
        r@ == spec_extension(name@),
{
    match find_last_dot(name) {
        Some(i) => {
            let n = name.unicode_len();
            proof {
                lemma_last_dot_bounds(name@);
            }
            let ext = name.substring_char(i + 1, n);
            String::from_str(ext)
        },
        None => {
            let r = String::new();
            proof {
                assert(r@ =~= spec_extension(name@));
            }
            r
        },
    }
}

/// Does `name` carry a texture image extension ("png" or "jpg")?
pub fn has_image_extension(name: &str) -> (r: bool)
    ensures
        r == spec_has_image_ext(name@),
{
    let ext = extension_of(name);
    str_eq(ext.as_str(), "png") || str_eq(ext.as_str(), "jpg")
}

/// A directory path joined with a file name by a separator.
pub open spec fn spec_join(dir: Seq<char>, name: Seq<char>) -> Seq<char> {
    dir + "/"@ + name
}

/// Join a directory path and a file name.
pub fn join(dir: &str, name: &str) -> (r: String)
    ensures
        r@ == spec_join(dir@, name@),
{
    String::from_str(dir).concat("/").concat(name)
}

/// The name of the intermediate file the upscaler writes beside the
/// original: the original name with the distinguishing suffix.
pub open spec fn spec_intermediate_name(name: Seq<char>) -> Seq<char> {
    name + ".upscaled.png"@
}

/// The intermediate (upscaled, unconverted) name for `name`.
pub fn intermediate_name(name: &str) -> (r: String)
    ensures
        r@ == spec_intermediate_name(name@),
{
    String::from_str(name).concat(".upscaled.png")
}

/// `name` with its extension replaced by `new_ext`.
pub fn replace_extension(name: &str, new_ext: &str) -> (r: String)
    ensures
        r@ == spec_replace_extension(name@, new_ext@),
{
    proof {
        reveal_strlit(".");
        assert("."@ =~= seq!['.']);
    }
    match find_last_dot(name) {
        Some(i) => {
            proof {
                lemma_last_dot_bounds(name@);
            }
            let stem = name.substring_char(0, i);
            String::from_str(stem).concat(".").concat(new_ext)
        },
        None => String::from_str(name).concat(".").concat(new_ext),
    }
}

} // verus!
