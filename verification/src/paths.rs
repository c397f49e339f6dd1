//! Unix paths as text: joining, file names and extensions, with the meaning
//! that `std::path` gives them on Unix.
use vstd::prelude::*;

use crate::text::{append_chars, chars_eq_str, split_chars, split_on};

verus! {

broadcast use vstd::seq_lib::group_seq_properties;

/// `base` joined with `rest` as `PathBuf::join` does on Unix: an absolute `rest`
/// replaces `base`, otherwise a separator is added unless `base` is empty or
/// already ends with one.
pub open spec fn path_join(base: Seq<char>, rest: Seq<char>) -> Seq<char> {
    if rest.len() > 0 && rest[0] == '/' {
        rest
    } else if base.len() == 0 || base.last() == '/' {
        base + rest
    } else {
        base + seq!['/'] + rest
    }
}

/// `base` joined with `rest`.
pub fn join_path(base: &Vec<char>, rest: &Vec<char>) -> (r: Vec<char>)
    ensures
        r@ == path_join(base@, rest@),
{
    if rest.len() > 0 && rest[0] == '/' {
        return rest.clone();
    }
    let mut r = base.clone();
    if !(base.len() == 0 || base[base.len() - 1] == '/') {
        r.push('/');
    }
    append_chars(&mut r, rest);
    r
}

/// The components of a path that name something: the pieces between `/`
/// separators, without empty pieces and without `.`.
pub open spec fn named_components(pieces: Seq<Seq<char>>) -> Seq<Seq<char>>
    decreases pieces.len(),
{
    if pieces.len() == 0 {
        seq![]
    } else {
        let rest = named_components(pieces.drop_last());
        if pieces.last().len() == 0 || pieces.last() == seq!['.'] {
            rest
        } else {
            rest.push(pieces.last())
        }
    }
}

/// The last component of a path, unless that is `..` or there is none
/// (`Path::file_name`).
pub open spec fn file_name_spec(path: Seq<char>) -> Option<Seq<char>> {
    let comps = named_components(split_on(path, '/'));
    if comps.len() == 0 || comps.last() == seq!['.', '.'] {
        None
    } else {
        Some(comps.last())
    }
}

/// The extension of a file name: what follows its last `.`, unless that `.` is
/// its first character (`Path::extension`).
pub open spec fn name_extension(name: Seq<char>) -> Option<Seq<char>> {
    if exists|i: int| 0 < i < name.len() && name[i] == '.' && forall|j: int| i < j < name.len() ==> name[j] != '.' {
        let i = choose|i: int| 0 < i < name.len() && name[i] == '.' && forall|j: int| i < j < name.len() ==> name[j] != '.';
        Some(name.skip(i + 1))
    } else {
        None
    }
}

/// The extension of a path's file name, if it has one.
pub open spec fn path_extension(path: Seq<char>) -> Option<Seq<char>> {
    match file_name_spec(path) {
        Some(n) => name_extension(n),
        None => None,
    }
}

/// The file name of a path.
pub fn file_name(path: &Vec<char>) -> (r: Option<Vec<char>>)
    ensures
        match r {
            Some(n) => file_name_spec(path@) == Some(n@),
            None => file_name_spec(path@) is None,
        },
{
    let pieces = split_chars(path, '/');
    let ghost pv = pieces.deep_view();
    let mut last: Option<Vec<char>> = None;
    let ghost mut comps: Seq<Seq<char>> = seq![];
    for i in 0..pieces.len()
        invariant
            pv == pieces.deep_view(),
            comps == named_components(pv.take(i as int)),
            match last {
                Some(l) => comps.len() > 0 && comps.last() == l@,
                None => comps.len() == 0,
            },
    {
        assert(pv.take(i + 1).drop_last() =~= pv.take(i as int));
        assert(pieces@[i as int].deep_view() =~= pieces@[i as int]@);
        assert(pv.take(i + 1).last() == pieces@[i as int]@);
        let piece = &pieces[i];
        let is_dot = piece.len() == 1 && piece[0] == '.';
        assert(is_dot == (piece@ == seq!['.'])) by {
            if piece@ == seq!['.'] {
                assert(piece@.len() == 1 && piece@[0] == '.');
            }
            if is_dot {
                assert(piece@ =~= seq!['.']);
            }
        }
        if !(piece.len() == 0 || is_dot) {
            last = Some(piece.clone());
            proof {
                comps = comps.push(piece@);
            }
        }
    }
    assert(pv.take(pieces.len() as int) =~= pv);
    match last {
        Some(l) => {
            if l.len() == 2 && l[0] == '.' && l[1] == '.' {
                assert(l@ =~= seq!['.', '.']);
                None
            } else {
                assert(l@ != seq!['.', '.']) by {
                    if l@ == seq!['.', '.'] {
                        assert(l@.len() == 2 && l@[0] == '.' && l@[1] == '.');
                    }
                }
                Some(l)
            }
        },
        None => None,
    }
}

/// The extension of a file name.
pub fn extension_of_name(name: &Vec<char>) -> (r: Option<Vec<char>>)
    ensures
        match r {
            Some(e) => name_extension(name@) == Some(e@),
            None => name_extension(name@) is None,
        },
{
    let n = name.len();
    let mut i = n;
    while i > 0 && name[i - 1] != '.'
        invariant
            i <= n,
            n == name.len(),
            forall|j: int| i <= j < n ==> name@[j] != '.',
        decreases i,
    {
        i = i - 1;
    }
    if i <= 1 {
        assert(!exists|k: int| 0 < k < name@.len() && name@[k] == '.' && forall|j: int| k < j < name@.len() ==> name@[j] != '.');
        return None;
    }
    let dot = i - 1;
    let mut e: Vec<char> = Vec::new();
    for j in i..n
        invariant
            i <= n,
            n == name.len(),
            e@ == name@.subrange(i as int, j as int),
    {
        e.push(name[j]);
        assert(name@.subrange(i as int, j + 1) == name@.subrange(i as int, j as int).push(name@[j as int]));
    }
    proof {
        let k = choose|k: int| 0 < k < name@.len() && name@[k] == '.' && forall|j: int| k < j < name@.len() ==> name@[j] != '.';
        if k < dot {
            assert(name@[dot as int] != '.');
        } else if k > dot {
            assert(name@[k] != '.');
        }
        assert(e@ =~= name@.skip(i as int));
    }
    Some(e)
}

/// The extension of a path's file name.
pub fn extension(path: &str) -> (r: Option<Vec<char>>)
    ensures
        match r {
            Some(e) => path_extension(path@) == Some(e@),
            None => path_extension(path@) is None,
        },
{
    let p = crate::text::chars_of(path);
    match file_name(&p) {
        Some(n) => extension_of_name(&n),
        None => None,
    }
}

} // verus!
