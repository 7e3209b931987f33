use vstd::prelude::*;

verus! {

/// Index at which the file name of `path` begins: just after its last `/`,
/// or 0 when it has none.
pub open spec fn file_name_start(path: Seq<char>) -> nat
    decreases path.len(),
{
    if path.len() == 0 {
        0
    } else if path.last() == '/' {
        path.len()
    } else {
        file_name_start(path.drop_last())
    }
}

/// Index of the first `.` in `name`, or `name.len()` when it has none.
pub open spec fn first_dot(name: Seq<char>) -> nat
    decreases name.len(),
{
    if name.len() == 0 {
        0
    } else if name[0] == '.' {
        0
    } else {
        1 + first_dot(name.drop_first())
    }
}

/// The segment inserted into the file name of the output.
pub open spec fn marker() -> Seq<char> {
    seq!['.', 'n', 'f', 't']
}

/// Where the result for the image at `path` is written: the same directory,
/// with the marker inserted just before the first `.` of the file name.
/// There is none when the file name is empty or holds no `.`, so that no
/// extension could tell the output format.
pub open spec fn marked_path(path: Seq<char>) -> Option<Seq<char>> {
    let start = file_name_start(path);
    let name = path.subrange(start as int, path.len() as int);
    let dot = start + first_dot(name);
    if first_dot(name) == name.len() {
        None
    } else {
        Some(path.subrange(0, dot as int) + marker() + path.subrange(dot as int, path.len() as int))
    }
}

/// Path of the file the stylized image of `file_path` is written to.
pub fn output_path(file_path: &str) -> (r: Option<String>)
    ensures
        r matches Some(out) ==> marked_path(file_path@) == Some(out@),
        r is None ==> marked_path(file_path@) is None,
{
    let n = file_path.unicode_len();
    let ghost p = file_path@;

    // Walk back to the start of the file name.
    let mut start: usize = n;
    assert(p.subrange(0, n as int) =~= p);
    while start > 0 && file_path.get_char(start - 1) != '/'
        invariant
            n == p.len(),
            p == file_path@,
            start <= n,
            file_name_start(p) == file_name_start(p.subrange(0, start as int)),
        decreases start,
    {
        proof {
            assert(p.subrange(0, start as int).drop_last() =~= p.subrange(0, start - 1));
        }
        start = start - 1;
    }
    proof {
        if start == 0 {
            assert(p.subrange(0, 0).len() == 0);
        }
    }
    assert(file_name_start(p) == start);

    // Walk forward to the first dot of the file name.
    let ghost name = p.subrange(start as int, n as int);
    let mut dot: usize = start;
    while dot < n && file_path.get_char(dot) != '.'
        invariant
            n == p.len(),
            p == file_path@,
            start <= dot <= n,
            name == p.subrange(start as int, n as int),
            first_dot(name) == (dot - start) + first_dot(p.subrange(dot as int, n as int)),
        decreases n - dot,
    {
        proof {
            assert(p.subrange(dot as int, n as int).drop_first() =~= p.subrange(dot + 1, n as int));
        }
        dot = dot + 1;
    }
    if dot == n {
        assert(p.subrange(n as int, n as int).len() == 0);
        return None;
    }
    assert(first_dot(name) == dot - start);
    let head = file_path.substring_char(0, dot);
    let tail = file_path.substring_char(dot, n);
    let mut out = String::from_str(head);
    out.append(".nft");
    out.append(tail);
    proof {
        reveal_strlit(".nft");
        assert(out@ =~= p.subrange(0, dot as int) + marker() + p.subrange(dot as int, n as int));
    }
    Some(out)
}

} // verus!
