//! Names and paths: looking a name up in a list, and taking a stream key or
//! a request path apart.

use vstd::prelude::*;
use vstd::string::{StrSliceExecFns, StringExecFns};

verus! {

/// The views of a list of strings, in order.
pub open spec fn names_view(names: Seq<String>) -> Seq<Seq<char>> {
    Seq::new(names.len(), |i: int| names[i]@)
}

/// The first index at or after `from` at which `names` holds `name`.
pub open spec fn index_from(names: Seq<Seq<char>>, name: Seq<char>, from: int) -> Option<int>
    decreases names.len() - from,
{
    if from < 0 || from >= names.len() {
        None
    } else if names[from] == name {
        Some(from)
    } else {
        index_from(names, name, from + 1)
    }
}

/// The first index at which `names` holds `name`.
pub open spec fn index_of(names: Seq<Seq<char>>, name: Seq<char>) -> Option<int> {
    index_from(names, name, 0)
}

/// No name occurs twice.
pub open spec fn distinct(names: Seq<Seq<char>>) -> bool {
    forall|i: int, j: int| 0 <= i < j < names.len() ==> names[i] != names[j]
}

/// What `index_from` finds is the first occurrence of the name at or after
/// `from`; it finds none only where there is none.
pub proof fn lemma_index_from(names: Seq<Seq<char>>, name: Seq<char>, from: int)
    requires
        0 <= from,
    ensures
        match index_from(names, name, from) {
            Some(i) => from <= i < names.len() && names[i] == name && forall|j: int|
                from <= j < i ==> names[j] != name,
            None => forall|j: int| from <= j < names.len() ==> names[j] != name,
        },
    decreases names.len() - from,
{
    if from < names.len() && names[from] != name {
        lemma_index_from(names, name, from + 1);
    }
}

/// A copy of a list of names.
pub fn clone_names(names: &Vec<String>) -> (r: Vec<String>)
    ensures
        names_view(r@) == names_view(names@),
{
    let mut out: Vec<String> = Vec::new();
    let mut i: usize = 0;
    while i < names.len()
        invariant
            i <= names.len(),
            out@.len() == i,
            forall|j: int| 0 <= j < i ==> out@[j]@ == names@[j]@,
        decreases names.len() - i,
    {
        out.push(names[i].clone());
        i += 1;
    }
    assert(names_view(out@) =~= names_view(names@));
    out
}

/// The first index at which `names` holds `name`.
pub fn position(names: &Vec<String>, name: &str) -> (r: Option<usize>)
    ensures
        match r {
            Some(i) => index_of(names_view(names@), name@) == Some(i as int) && i < names@.len(),
            None => index_of(names_view(names@), name@) is None,
        },
{
    let wanted = name.to_owned();
    let ghost views = names_view(names@);
    let mut i: usize = 0;
    while i < names.len()
        invariant
            i <= names@.len(),
            views == names_view(names@),
            wanted@ == name@,
            index_from(views, name@, 0) == index_from(views, name@, i as int),
        decreases names@.len() - i,
    {
        assert(views[i as int] == names@[i as int]@);
        if names[i] == wanted {
            return Some(i);
        }
        i += 1;
    }
    None
}

/// The first index at or after `from` at which `text` holds `c`, or the
/// length of `text` where it holds none there.
pub open spec fn find_char(text: Seq<char>, c: char, from: int) -> int
    decreases text.len() - from,
{
    if from < 0 || from >= text.len() {
        text.len() as int
    } else if text[from] == c {
        from
    } else {
        find_char(text, c, from + 1)
    }
}

/// The first index at or after `from` at which `text` holds `c`, or the
/// length of `text`.
pub fn find(text: &str, c: char, from: usize) -> (r: usize)
    requires
        from <= text@.len(),
    ensures
        r == find_char(text@, c, from as int),
        from <= r <= text@.len(),
{
    let len = text.unicode_len();
    let mut i: usize = from;
    while i < len
        invariant
            from <= i <= len,
            len == text@.len(),
            find_char(text@, c, from as int) == find_char(text@, c, i as int),
        decreases len - i,
    {
        if text.get_char(i) == c {
            return i;
        }
        i += 1;
    }
    i
}

/// The application and the stream that a stream key `/app/stream` names: the
/// text between its first and its second slash, and the text between its
/// second slash and its third, or its end. `None` for a key with fewer than
/// two slashes.
pub open spec fn split_key(key: Seq<char>) -> Option<(Seq<char>, Seq<char>)> {
    let a = find_char(key, '/', 0);
    let b = find_char(key, '/', a + 1);
    let c = find_char(key, '/', b + 1);
    if a < key.len() && b < key.len() {
        Some((key.subrange(a + 1, b), key.subrange(b + 1, c)))
    } else {
        None
    }
}

/// Takes a stream key apart into application and stream.
pub fn split_stream_key(key: &str) -> (r: Option<(String, String)>)
    ensures
        match r {
            Some((app, stream)) => split_key(key@) == Some((app@, stream@)),
            None => split_key(key@) is None,
        },
{
    let len = key.unicode_len();
    let a = find(key, '/', 0);
    if a >= len {
        return None;
    }
    let b = find(key, '/', a + 1);
    if b >= len {
        return None;
    }
    let c = find(key, '/', b + 1);
    let app = key.substring_char(a + 1, b).to_owned();
    let stream = key.substring_char(b + 1, c).to_owned();
    Some((app, stream))
}

/// `a`, a slash, and `b`.
pub fn join_path(a: &str, b: &str) -> (r: String)
    ensures
        r@ == a@ + seq!['/'] + b@,
{
    let mut r = a.to_owned();
    r.append("/");
    r.append(b);
    proof {
        reveal_strlit("/");
        assert("/"@ =~= seq!['/']);
    }
    r
}

/// The last index before `before` at which `text` holds `c`, or -1 where it
/// holds none there.
pub open spec fn rfind_char(text: Seq<char>, c: char, before: int) -> int
    decreases before,
{
    if before <= 0 || before > text.len() {
        -1
    } else if text[before - 1] == c {
        before - 1
    } else {
        rfind_char(text, c, before - 1)
    }
}

/// The last index at which `text` holds `c`.
pub fn rfind(text: &str, c: char) -> (r: Option<usize>)
    ensures
        match r {
            Some(i) => i == rfind_char(text@, c, text@.len() as int) && i < text@.len(),
            None => rfind_char(text@, c, text@.len() as int) == -1,
        },
{
    let len = text.unicode_len();
    let mut i: usize = len;
    while i > 0
        invariant
            i <= len,
            len == text@.len(),
            rfind_char(text@, c, len as int) == rfind_char(text@, c, i as int),
        decreases i,
    {
        if text.get_char(i - 1) == c {
            return Some(i - 1);
        }
        i -= 1;
    }
    None
}

/// `text` without `suffix` at its end, if it ends so.
pub open spec fn without_suffix(text: Seq<char>, suffix: Seq<char>) -> Seq<char> {
    if text.len() >= suffix.len() && text.subrange(text.len() - suffix.len(), text.len() as int)
        == suffix {
        text.subrange(0, text.len() - suffix.len())
    } else {
        text
    }
}

/// `text` without `suffix` at its end, if it ends so.
pub fn strip_suffix(text: &str, suffix: &str) -> (r: String)
    ensures
        r@ == without_suffix(text@, suffix@),
{
    let len = text.unicode_len();
    let slen = suffix.unicode_len();
    if len < slen {
        return text.to_owned();
    }
    let start = len - slen;
    let ghost tail = text@.subrange(start as int, len as int);
    let mut i: usize = 0;
    while i < slen
        invariant
            i <= slen <= len,
            start == len - slen,
            len == text@.len(),
            slen == suffix@.len(),
            forall|j: int| 0 <= j < i ==> text@[start + j] == suffix@[j],
        decreases slen - i,
    {
        if text.get_char(start + i) != suffix.get_char(i) {
            assert(text@.subrange(start as int, len as int)[i as int] != suffix@[i as int]);
            return text.to_owned();
        }
        i += 1;
    }
    assert(text@.subrange(start as int, len as int) =~= suffix@);
    text.substring_char(0, start).to_owned()
}

/// The application's path and the stream that the path of an HTTP request
/// `/app/stream.flv` names: what stands before its last slash, and what
/// stands behind it without the ending `.flv`. `None` for a path without
/// slash.
pub open spec fn split_flv(path: Seq<char>) -> Option<(Seq<char>, Seq<char>)> {
    let i = rfind_char(path, '/', path.len() as int);
    if i < 0 {
        None
    } else {
        Some(
            (path.subrange(0, i), without_suffix(path.subrange(i + 1, path.len() as int), ".flv"@)),
        )
    }
}

/// Takes the path of an HTTP request apart into the application's path and
/// the stream.
pub fn split_flv_path(path: &str) -> (r: Option<(String, String)>)
    ensures
        match r {
            Some((app, stream)) => split_flv(path@) == Some((app@, stream@)),
            None => split_flv(path@) is None,
        },
{
    let len = path.unicode_len();
    match rfind(path, '/') {
        Some(i) => {
            let app = path.substring_char(0, i).to_owned();
            let stream = strip_suffix(path.substring_char(i + 1, len), ".flv");
            Some((app, stream))
        },
        None => None,
    }
}

} // verus!
