use vstd::prelude::*;

use crate::naming::{parse_u32, parsed_u32};

verus! {

/// Unicode `White_Space`, the characters that `char::is_whitespace` accepts.
pub open spec fn is_ws(c: char) -> bool {
    ('\u{9}' <= c && c <= '\u{d}') || c == ' ' || c == '\u{85}' || c == '\u{a0}' || c
        == '\u{1680}' || ('\u{2000}' <= c && c <= '\u{200a}') || c == '\u{2028}' || c
        == '\u{2029}' || c == '\u{202f}' || c == '\u{205f}' || c == '\u{3000}'
}

pub fn is_whitespace(c: char) -> (r: bool)
    ensures
        r == is_ws(c),
{
    ('\u{9}' <= c && c <= '\u{d}') || c == ' ' || c == '\u{85}' || c == '\u{a0}' || c
        == '\u{1680}' || ('\u{2000}' <= c && c <= '\u{200a}') || c == '\u{2028}' || c
        == '\u{2029}' || c == '\u{202f}' || c == '\u{205f}' || c == '\u{3000}'
}

pub open spec fn trim_start(s: Seq<char>) -> Seq<char>
    decreases s.len(),
{
    if s.len() > 0 && is_ws(s[0]) {
        trim_start(s.skip(1))
    } else {
        s
    }
}

pub open spec fn trim_end(s: Seq<char>) -> Seq<char>
    decreases s.len(),
{
    if s.len() > 0 && is_ws(s.last()) {
        trim_end(s.drop_last())
    } else {
        s
    }
}

/// A string without its leading and trailing whitespace.
pub open spec fn trim(s: Seq<char>) -> Seq<char> {
    trim_end(trim_start(s))
}

/// The fields of a string separated by `sep`; a string with no separator is one field.
pub open spec fn fields(s: Seq<char>, sep: char) -> Seq<Seq<char>>
    decreases s.len(),
{
    if s.len() == 0 {
        seq![Seq::empty()]
    } else {
        let prev = fields(s.drop_last(), sep);
        if s.last() == sep {
            prev.push(Seq::empty())
        } else {
            prev.update(prev.len() - 1, prev.last().push(s.last()))
        }
    }
}

/// Each field trimmed, the empty ones left out.
pub open spec fn kept(fs: Seq<Seq<char>>) -> Seq<Seq<char>>
    decreases fs.len(),
{
    if fs.len() == 0 {
        Seq::empty()
    } else {
        let prev = kept(fs.drop_last());
        if trim(fs.last()).len() > 0 {
            prev.push(trim(fs.last()))
        } else {
            prev
        }
    }
}

/// The items of a comma-separated list: trimmed, empty ones left out.
pub open spec fn list_items(s: Seq<char>) -> Seq<Seq<char>> {
    kept(fields(s, ','))
}

/// Each field trimmed, empty ones kept.
pub open spec fn trimmed_fields(s: Seq<char>) -> Seq<Seq<char>> {
    fields(s, ',').map_values(|f: Seq<char>| trim(f))
}

/// The numbers among a list's items, in order; items that are not a `u32` are left out.
pub open spec fn parsed_ids(items: Seq<Seq<char>>) -> Seq<u32>
    decreases items.len(),
{
    if items.len() == 0 {
        Seq::empty()
    } else {
        let prev = parsed_ids(items.drop_last());
        match parsed_u32(items.last()) {
            Some(v) => prev.push(v),
            None => prev,
        }
    }
}

/// Removes leading and trailing whitespace.
pub fn trim_str(s: &str) -> (r: String)
    ensures
        r@ == trim(s@),
{
    let n = s.unicode_len();
    let mut a: usize = 0;
    proof {
        assert(s@.skip(0) =~= s@);
    }
    while a < n && is_whitespace(s.get_char(a))
        invariant
            a <= n,
            n == s@.len(),
            trim_start(s@) == trim_start(s@.skip(a as int)),
        decreases n - a,
    {
        proof {
            assert(s@.skip(a as int).skip(1) =~= s@.skip(a + 1));
        }
        a = a + 1;
    }
    proof {
        assert(trim_start(s@.skip(a as int)) == s@.skip(a as int));
    }
    let mut b: usize = n;
    proof {
        assert(s@.skip(a as int) =~= s@.subrange(a as int, b as int));
    }
    while b > a && is_whitespace(s.get_char(b - 1))
        invariant
            a <= b <= n,
            n == s@.len(),
            trim_start(s@) == s@.skip(a as int),
            trim(s@) == trim_end(s@.subrange(a as int, b as int)),
        decreases b - a,
    {
        proof {
            assert(s@.subrange(a as int, b as int).drop_last() =~= s@.subrange(
                a as int,
                b - 1,
            ));
        }
        b = b - 1;
    }
    let t = s.substring_char(a, b);
    proof {
        assert(trim_end(s@.subrange(a as int, b as int)) == s@.subrange(a as int, b as int));
    }
    String::from_str(t)
}

/// Splits a comma-separated list, trims each item and leaves out the empty ones.
pub fn split_list(s: &str) -> (r: Vec<String>)
    ensures
        r.deep_view() == list_items(s@),
{
    let n = s.unicode_len();
    let mut out: Vec<String> = Vec::new();
    let mut start: usize = 0;
    let mut i: usize = 0;
    let ghost done: Seq<Seq<char>> = Seq::empty();
    proof {
        assert(s@.subrange(0, 0) =~= Seq::<char>::empty());
        assert(s@.take(0).len() == 0);
        assert(fields(s@.take(0), ',') =~= done.push(s@.subrange(0, 0)));
    }
    while i < n
        invariant
            start <= i <= n,
            n == s@.len(),
            fields(s@.take(i as int), ',') == done.push(s@.subrange(start as int, i as int)),
            out.deep_view() == kept(done),
        decreases n - i,
    {
        let c = s.get_char(i);
        let ghost pre = s@.take(i + 1);
        proof {
            assert(pre.drop_last() =~= s@.take(i as int));
            assert(pre.last() == c);
        }
        if c == ',' {
            let piece = s.substring_char(start, i);
            let item = trim_str(piece);
            proof {
                assert(fields(pre, ',') =~= done.push(s@.subrange(start as int, i as int)).push(
                    Seq::empty(),
                ));
                assert(piece@ == s@.subrange(start as int, i as int));
            }
            let ghost new_done = done.push(piece@);
            proof {
                assert(new_done.drop_last() =~= done);
            }
            if item.unicode_len() > 0 {
                let ghost before = out.deep_view();
                out.push(item);
                proof {
                    assert(out.deep_view() =~= before.push(item@));
                }
            }
            proof {
                done = new_done;
            }
            start = i + 1;
            proof {
                assert(s@.subrange(start as int, i + 1) =~= Seq::<char>::empty());
            }
        } else {
            proof {
                let f = done.push(s@.subrange(start as int, i as int));
                assert(s@.subrange(start as int, i as int).push(c) =~= s@.subrange(
                    start as int,
                    i + 1,
                ));
                assert(fields(pre, ',') == f.update(f.len() - 1, f.last().push(c)));
                assert(f.update(f.len() - 1, f.last().push(c)) =~= done.push(
                    s@.subrange(start as int, i + 1),
                ));
            }
        }
        i = i + 1;
    }
    let piece = s.substring_char(start, n);
    let item = trim_str(piece);
    proof {
        assert(s@.take(n as int) =~= s@);
        assert(done.push(piece@).drop_last() =~= done);
    }
    if item.unicode_len() > 0 {
        let ghost before = out.deep_view();
        out.push(item);
        proof {
            assert(out.deep_view() =~= before.push(item@));
        }
    }
    out
}

/// Splits a comma-separated list and trims each field, keeping empty ones.
pub fn split_trimmed(s: &str) -> (r: Vec<String>)
    ensures
        r.deep_view() == trimmed_fields(s@),
{
    let n = s.unicode_len();
    let mut out: Vec<String> = Vec::new();
    let mut start: usize = 0;
    let mut i: usize = 0;
    let ghost done: Seq<Seq<char>> = Seq::empty();
    proof {
        assert(s@.subrange(0, 0) =~= Seq::<char>::empty());
        assert(s@.take(0).len() == 0);
        assert(fields(s@.take(0), ',') =~= done.push(s@.subrange(0, 0)));
    }
    while i < n
        invariant
            start <= i <= n,
            n == s@.len(),
            fields(s@.take(i as int), ',') == done.push(s@.subrange(start as int, i as int)),
            out.deep_view() == done.map_values(|f: Seq<char>| trim(f)),
        decreases n - i,
    {
        let c = s.get_char(i);
        let ghost pre = s@.take(i + 1);
        proof {
            assert(pre.drop_last() =~= s@.take(i as int));
            assert(pre.last() == c);
        }
        if c == ',' {
            let piece = s.substring_char(start, i);
            let item = trim_str(piece);
            proof {
                assert(fields(pre, ',') =~= done.push(s@.subrange(start as int, i as int)).push(
                    Seq::empty(),
                ));
            }
            let ghost before = out.deep_view();
            out.push(item);
            proof {
                assert(out.deep_view() =~= before.push(item@));
                assert(done.push(piece@).map_values(|f: Seq<char>| trim(f)) =~= done.map_values(
                    |f: Seq<char>| trim(f),
                ).push(trim(piece@)));
                done = done.push(piece@);
            }
            start = i + 1;
            proof {
                assert(s@.subrange(start as int, i + 1) =~= Seq::<char>::empty());
            }
        } else {
            proof {
                let f = done.push(s@.subrange(start as int, i as int));
                assert(s@.subrange(start as int, i as int).push(c) =~= s@.subrange(
                    start as int,
                    i + 1,
                ));
                assert(fields(pre, ',') == f.update(f.len() - 1, f.last().push(c)));
                assert(f.update(f.len() - 1, f.last().push(c)) =~= done.push(
                    s@.subrange(start as int, i + 1),
                ));
            }
        }
        i = i + 1;
    }
    let piece = s.substring_char(start, n);
    let item = trim_str(piece);
    proof {
        assert(s@.take(n as int) =~= s@);
    }
    let ghost before = out.deep_view();
    out.push(item);
    proof {
        assert(out.deep_view() =~= before.push(item@));
        assert(done.push(piece@).map_values(|f: Seq<char>| trim(f)) =~= done.map_values(
            |f: Seq<char>| trim(f),
        ).push(trim(piece@)));
    }
    out
}

/// The `u32` values among a comma-separated list's items.
pub fn parse_id_list(s: &str) -> (r: Vec<u32>)
    ensures
        r@ == parsed_ids(list_items(s@)),
{
    let items = split_list(s);
    let mut ids: Vec<u32> = Vec::new();
    let mut i: usize = 0;
    while i < items.len()
        invariant
            i <= items@.len(),
            items.deep_view() == list_items(s@),
            ids@ == parsed_ids(items.deep_view().take(i as int)),
        decreases items@.len() - i,
    {
        proof {
            assert(items.deep_view().take(i + 1).drop_last() =~= items.deep_view().take(
                i as int,
            ));
            assert(items.deep_view()[i as int] == items@[i as int]@);
        }
        match parse_u32(items[i].as_str()) {
            Some(v) => {
                ids.push(v);
            },
            None => {},
        }
        i = i + 1;
    }
    proof {
        assert(items.deep_view().take(i as int) =~= items.deep_view());
    }
    ids
}

/// A copy of a list of strings.
pub fn copy_strings(v: &Vec<String>) -> (r: Vec<String>)
    ensures
        r.deep_view() == v.deep_view(),
{
    let mut out: Vec<String> = Vec::new();
    let mut i: usize = 0;
    while i < v.len()
        invariant
            i <= v@.len(),
            out.deep_view() == v.deep_view().take(i as int),
        decreases v@.len() - i,
    {
        let ghost before = out.deep_view();
        out.push(v[i].clone());
        proof {
            assert(out.deep_view() =~= before.push(v@[i as int]@));
            assert(v.deep_view().take(i + 1) =~= v.deep_view().take(i as int).push(
                v@[i as int]@,
            ));
        }
        i = i + 1;
    }
    proof {
        assert(v.deep_view().take(i as int) =~= v.deep_view());
    }
    out
}

} // verus!
